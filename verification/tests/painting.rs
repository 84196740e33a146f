use constellation::painter::{
    apply_copy_alignment, fill_staging, BindGroupRegistry, PaintError, PainterBufferSizes,
    PaletteId, PaletteInfo,
};
use constellation::render::{ImageId, ImageRegistry};
use constellation::shape::Color32;
use constellation::text::{is_printable, push_decimal};
use constellation::ui_frame::{layout_frame, DrawCommand, DrawList};
use constellation::utils::align;

#[test]
fn align_rounds_up_to_multiple() {
    assert_eq!(align(0, 4), 0);
    assert_eq!(align(1, 4), 4);
    assert_eq!(align(4, 4), 4);
    assert_eq!(align(5, 4), 8);
    assert_eq!(align(100, 256), 256);
    assert_eq!(align(257, 256), 512);
    assert_eq!(align(7, 1), 7);
}

#[test]
fn align_is_idempotent() {
    for v in 0..50usize {
        for a in 1..9usize {
            let once = align(v, a);
            assert_eq!(align(once, a), once);
            assert_eq!(once % a, 0);
            assert!(once >= v && once < v + a);
        }
    }
}

#[test]
fn color_channels_round_trip() {
    let c = Color32::from_rgba_premultiplied(1, 2, 3, 4);
    assert_eq!(c.to_tuple(), (1, 2, 3, 4));
    assert_eq!((c.r(), c.g(), c.b(), c.a()), (1, 2, 3, 4));
    assert_eq!(Color32::from_rgb(10, 20, 30).to_tuple(), (10, 20, 30, 255));
    assert_eq!(Color32::from_rgb_additive(10, 20, 30).to_tuple(), (10, 20, 30, 0));
    assert_eq!(Color32::default().to_tuple(), (0, 0, 0, 0));
}

#[test]
fn decimal_formatting() {
    let mut s = String::from("n=");
    push_decimal(&mut s, 0);
    assert_eq!(s, "n=0");
    let mut s = String::new();
    push_decimal(&mut s, 9);
    assert_eq!(s, "9");
    let mut s = String::new();
    push_decimal(&mut s, 10);
    assert_eq!(s, "10");
    let mut s = String::new();
    push_decimal(&mut s, 1234567890);
    assert_eq!(s, "1234567890");
    let mut s = String::new();
    push_decimal(&mut s, usize::MAX);
    assert_eq!(s, usize::MAX.to_string());
}

#[test]
fn paint_error_message() {
    let e = PaintError::InvalidPalette(PaletteId::from_raw(42));
    assert_eq!(e.message(), "Painter error: invalid palette id '42'");
    let e = PaintError::InvalidPalette(PaletteId(0));
    assert_eq!(e.message(), "Painter error: invalid palette id '0'");
}

#[test]
fn printable_characters() {
    assert!(is_printable('a'));
    assert!(is_printable(' '));
    assert!(is_printable('é'));
    assert!(!is_printable('\n'));
    assert!(!is_printable('\u{7f}'));
    assert!(!is_printable('\u{0}'));
    assert!(!is_printable('\u{e000}'));
    assert!(!is_printable('\u{f8ff}'));
    assert!(is_printable('\u{f900}'));
    assert!(!is_printable('\u{f0000}'));
    assert!(!is_printable('\u{10fffd}'));
    assert!(is_printable('\u{10fffe}'));
}

#[test]
fn bind_group_registry_ids_start_at_one() {
    let mut reg: BindGroupRegistry<&str> = BindGroupRegistry::new();
    let a = reg.insert("a");
    let b = reg.insert("b");
    assert_eq!(a, 1);
    assert_eq!(b, 2);
    assert_eq!(reg.get(0), None);
    assert_eq!(reg.get(a), Some(&"a"));
    assert_eq!(reg.get(b), Some(&"b"));
    assert_eq!(reg.remove(a), Some("a"));
    assert_eq!(reg.get(a), None);
    assert_eq!(reg.remove(a), None);
    assert_eq!(reg.get(b), Some(&"b"));
    let c = reg.insert("c");
    assert_eq!(c, 3);
}

#[test]
fn image_registry_ids_start_at_zero() {
    let mut reg: ImageRegistry<u32> = ImageRegistry::new();
    let a = reg.register(10);
    let b = reg.register(20);
    assert_eq!(a, ImageId::from_raw_parts(0));
    assert_eq!(b.into_raw(), 1);
    assert_eq!(reg.get(a), Some(&10));
    reg.unregister(a);
    assert_eq!(reg.get(a), None);
    assert_eq!(reg.get(b), Some(&20));
    let c = reg.register(30);
    assert_eq!(c.into_raw(), 2);
}

#[test]
fn copy_alignment_of_buffers() {
    assert_eq!(apply_copy_alignment(0), 4);
    assert_eq!(apply_copy_alignment(1), 4);
    assert_eq!(apply_copy_alignment(4), 4);
    assert_eq!(apply_copy_alignment(5), 8);
    assert_eq!(apply_copy_alignment(20 * 3), 60);
    assert_eq!(apply_copy_alignment(2 * 7), 16);
}

#[test]
fn painter_buffers_grow_to_fit() {
    let mut sizes = PainterBufferSizes::new();
    assert_eq!((sizes.vertex, sizes.index), (1024 * 1024, 1024 * 1024));
    let r = sizes.update(100, 10);
    assert!(!r.vertex && !r.index);
    assert_eq!((sizes.vertex, sizes.index), (1024 * 1024, 1024 * 1024));
    let r = sizes.update(2 * 1024 * 1024 + 1, 10);
    assert!(r.vertex && !r.index);
    assert_eq!(sizes.vertex, 2 * 1024 * 1024 + 4);
    let r = sizes.update(100, 10);
    assert!(!r.vertex && !r.index);
    assert_eq!(sizes.vertex, 2 * 1024 * 1024 + 4);
}

#[test]
fn staging_pads_with_zeros() {
    let mut staging = vec![9u8; 3];
    fill_staging(&mut staging, &[1, 2, 3, 4, 5], 8);
    assert_eq!(staging, vec![1, 2, 3, 4, 5, 0, 0, 0]);
    fill_staging(&mut staging, &[7], 4);
    assert_eq!(staging, vec![7, 0, 0, 0]);
    fill_staging(&mut staging, &[1, 2, 3], 2);
    assert_eq!(staging, vec![1, 2]);
}

#[test]
fn palette_info_sizes() {
    let p = PaletteInfo { id: 3, width: 4, height: 2, is_srgb: true, is_renderable: false };
    assert_eq!(p.size(), 32);
    assert_eq!(p.width(), 4);
    assert_eq!(p.height(), 2);
    assert!(p.is_srgb());
    assert!(!p.is_renderable());
    assert_eq!(p.id(), PaletteId(3));
    assert!(p.accepts_data_len(32));
    assert!(!p.accepts_data_len(31));
}

#[test]
fn frame_layout_offsets_by_previous_lists() {
    let lists = vec![
        DrawList {
            vtx_len: 10,
            idx_len: 12,
            commands: vec![
                DrawCommand::Elements { count: 6, idx_offset: 0, vtx_offset: 0, texture_id: 1 },
                DrawCommand::Other,
                DrawCommand::Elements { count: 6, idx_offset: 6, vtx_offset: 4, texture_id: 2 },
            ],
        },
        DrawList { vtx_len: 0, idx_len: 0, commands: vec![DrawCommand::Other] },
        DrawList {
            vtx_len: 5,
            idx_len: 3,
            commands: vec![DrawCommand::Elements { count: 3, idx_offset: 0, vtx_offset: 1, texture_id: 7 }],
        },
    ];
    let layout = layout_frame(&lists);
    assert_eq!(layout.total_vtx, 15);
    assert_eq!(layout.total_idx, 15);
    assert_eq!(layout.elements.len(), 3);
    let e: Vec<(usize, usize, usize, usize)> = layout
        .elements
        .iter()
        .map(|e| (e.idx_count, e.idx_offset, e.vtx_offset, e.palette_id.raw()))
        .collect();
    assert_eq!(e, vec![(6, 0, 0, 1), (6, 6, 4, 2), (3, 12, 11, 7)]);
    for e in layout.elements.iter() {
        assert!(e.idx_offset + e.idx_count <= layout.total_idx);
        assert!(e.vtx_offset <= layout.total_vtx);
    }
}

#[test]
fn empty_frame_layout() {
    let layout = layout_frame(&Vec::new());
    assert_eq!(layout.total_vtx, 0);
    assert_eq!(layout.total_idx, 0);
    assert!(layout.elements.is_empty());
}
