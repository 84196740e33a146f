use vstd::prelude::*;
use crate::painter::PaletteId;

verus! {

/// One command of a user interface draw list.
#[derive(Clone, Copy, Debug, PartialEq, Eq, Structural)]
pub enum DrawCommand {
    /// Draw `count` indices, starting `idx_offset` indices and `vtx_offset`
    /// vertices into the list's own buffers, sampling `texture_id`.
    Elements { count: usize, idx_offset: usize, vtx_offset: usize, texture_id: usize },
    /// A command that draws nothing (a state reset or a user callback).
    Other,
}

/// What the frame builder reads of one draw list: the lengths of its vertex
/// and index buffers, and its commands in order.
pub struct DrawList {
    pub vtx_len: usize,
    pub idx_len: usize,
    pub commands: Vec<DrawCommand>,
}

/// Where one painted element lies in the frame-wide vertex and index buffers.
#[derive(Clone, Copy, Debug, PartialEq, Eq, Structural)]
pub struct ElementPlacement {
    pub idx_count: usize,
    pub idx_offset: usize,
    pub vtx_offset: usize,
    pub palette_id: PaletteId,
}

impl View for ElementPlacement {
    type V = (int, int, int, int);

    open spec fn view(&self) -> (int, int, int, int) {
        (self.idx_count as int, self.idx_offset as int, self.vtx_offset as int, self.palette_id.0 as int)
    }
}

/// The layout of one frame: the sizes of the concatenated buffers and the
/// placement of every element, in draw order.
pub struct FrameLayout {
    pub total_vtx: usize,
    pub total_idx: usize,
    pub elements: Vec<ElementPlacement>,
}

/// Number of vertices in all the given draw lists together.
pub open spec fn vtx_total(lists: Seq<DrawList>) -> int
    decreases lists.len(),
{
    if lists.len() == 0 {
        0
    } else {
        vtx_total(lists.drop_last()) + lists.last().vtx_len
    }
}

/// Number of indices in all the given draw lists together.
pub open spec fn idx_total(lists: Seq<DrawList>) -> int
    decreases lists.len(),
{
    if lists.len() == 0 {
        0
    } else {
        idx_total(lists.drop_last()) + lists.last().idx_len
    }
}

/// The placements of the element commands among `cmds`, for a draw list whose
/// buffers start at vertex `vbase` and index `ibase` of the frame.
pub open spec fn cmds_elements(cmds: Seq<DrawCommand>, vbase: int, ibase: int) -> Seq<(int, int, int, int)>
    decreases cmds.len(),
{
    if cmds.len() == 0 {
        Seq::empty()
    } else {
        let prefix = cmds_elements(cmds.drop_last(), vbase, ibase);
        match cmds.last() {
            DrawCommand::Elements { count, idx_offset, vtx_offset, texture_id } =>
                prefix.push((count as int, ibase + idx_offset, vbase + vtx_offset, texture_id as int)),
            DrawCommand::Other => prefix,
        }
    }
}

/// The placements of all element commands of all draw lists, in draw order.
pub open spec fn frame_elements(lists: Seq<DrawList>) -> Seq<(int, int, int, int)>
    decreases lists.len(),
{
    if lists.len() == 0 {
        Seq::empty()
    } else {
        let prev = lists.drop_last();
        frame_elements(prev) + cmds_elements(lists.last().commands@, vtx_total(prev), idx_total(prev))
    }
}

/// The frame's buffers and offsets fit in `usize`: the totals, and the
/// frame-wide offset of every element command.
pub open spec fn frame_fits(lists: Seq<DrawList>) -> bool {
    &&& vtx_total(lists) <= usize::MAX
    &&& idx_total(lists) <= usize::MAX
    &&& forall|i: int, j: int|
        #![trigger lists[i].commands@[j]]
        0 <= i < lists.len() && 0 <= j < lists[i].commands@.len() ==> match lists[i].commands@[j] {
            DrawCommand::Elements { idx_offset, vtx_offset, .. } => {
                &&& vtx_total(lists.take(i)) + vtx_offset <= usize::MAX
                &&& idx_total(lists.take(i)) + idx_offset <= usize::MAX
            },
            DrawCommand::Other => true,
        }
}

proof fn lemma_totals_monotone(lists: Seq<DrawList>, i: int)
    requires
        0 <= i <= lists.len(),
    ensures
        vtx_total(lists.take(i)) <= vtx_total(lists),
        idx_total(lists.take(i)) <= idx_total(lists),
    decreases lists.len(),
{
    if i < lists.len() {
        assert(lists.drop_last().take(i) =~= lists.take(i));
        lemma_totals_monotone(lists.drop_last(), i);
    } else {
        assert(lists.take(i) =~= lists);
    }
}

/// Lays out the draw lists of one user interface frame in shared vertex and
/// index buffers: the lists are concatenated in order, and every element
/// command is moved by the number of vertices and indices of the lists
/// before it.
pub fn layout_frame(lists: &Vec<DrawList>) -> (r: FrameLayout)
    requires
        frame_fits(lists@),
    ensures
        r.total_vtx == vtx_total(lists@),
        r.total_idx == idx_total(lists@),
        r.elements@.len() == frame_elements(lists@).len(),
        forall|k: int| 0 <= k < r.elements@.len() ==> #[trigger] r.elements@[k]@ == frame_elements(lists@)[k],
{
    let mut elements: Vec<ElementPlacement> = Vec::new();
    let mut global_vtx: usize = 0;
    let mut global_idx: usize = 0;
    let mut i: usize = 0;
    while i < lists.len()
        invariant
            0 <= i <= lists@.len(),
            frame_fits(lists@),
            global_vtx == vtx_total(lists@.take(i as int)),
            global_idx == idx_total(lists@.take(i as int)),
            elements@.len() == frame_elements(lists@.take(i as int)).len(),
            forall|k: int| 0 <= k < elements@.len() ==> #[trigger] elements@[k]@ == frame_elements(lists@.take(i as int))[k],
        decreases lists@.len() - i,
    {
        let list = &lists[i];
        let ghost before = elements@;
        let mut j: usize = 0;
        while j < list.commands.len()
            invariant
                0 <= i < lists@.len(),
                *list == lists@[i as int],
                0 <= j <= list.commands@.len(),
                frame_fits(lists@),
                global_vtx == vtx_total(lists@.take(i as int)),
                global_idx == idx_total(lists@.take(i as int)),
                elements@.len() == before.len() + cmds_elements(list.commands@.take(j as int), global_vtx as int, global_idx as int).len(),
                forall|k: int| 0 <= k < before.len() ==> #[trigger] elements@[k] == before[k],
                forall|k: int| 0 <= k < elements@.len() - before.len() ==>
                    #[trigger] elements@[before.len() + k]@ == cmds_elements(list.commands@.take(j as int), global_vtx as int, global_idx as int)[k],
            decreases list.commands@.len() - j,
        {
            let cmd = list.commands[j];
            proof {
                assert(list.commands@.take(j + 1).drop_last() =~= list.commands@.take(j as int));
                assert(lists@[i as int].commands@[j as int] == cmd);
            }
            match cmd {
                DrawCommand::Elements { count, idx_offset, vtx_offset, texture_id } => {
                    elements.push(ElementPlacement {
                        idx_count: count,
                        idx_offset: global_idx + idx_offset,
                        vtx_offset: global_vtx + vtx_offset,
                        palette_id: PaletteId(texture_id),
                    });
                },
                DrawCommand::Other => {},
            }
            j = j + 1;
        }
        proof {
            assert(list.commands@.take(j as int) =~= list.commands@);
            assert(lists@.take(i + 1).drop_last() =~= lists@.take(i as int));
            lemma_totals_monotone(lists@, i + 1);
            let f_prev = frame_elements(lists@.take(i as int));
            let f_new = frame_elements(lists@.take(i + 1));
            assert(f_new =~= f_prev + cmds_elements(list.commands@, global_vtx as int, global_idx as int));
            assert forall|k: int| 0 <= k < elements@.len() implies #[trigger] elements@[k]@ == f_new[k] by {
                if k >= before.len() {
                    let kk = k - before.len();
                    assert(elements@[before.len() + kk]@ == cmds_elements(list.commands@, global_vtx as int, global_idx as int)[kk]);
                }
            }
        }
        global_vtx = global_vtx + list.vtx_len;
        global_idx = global_idx + list.idx_len;
        i = i + 1;
    }
    proof {
        assert(lists@.take(i as int) =~= lists@);
    }
    FrameLayout { total_vtx: global_vtx, total_idx: global_idx, elements }
}

} // verus!

verus! {

/// Every element command of a draw list stays inside the list's buffers: its
/// indices lie in the index buffer and its base vertex in the vertex buffer.
pub open spec fn list_in_bounds(list: DrawList) -> bool {
    forall|j: int| 0 <= j < list.commands@.len() ==> match #[trigger] list.commands@[j] {
        DrawCommand::Elements { count, idx_offset, vtx_offset, .. } => {
            &&& idx_offset + count <= list.idx_len
            &&& vtx_offset <= list.vtx_len
        },
        DrawCommand::Other => true,
    }
}

proof fn lemma_cmds_elements_in_bounds(cmds: Seq<DrawCommand>, vbase: int, ibase: int, vlen: int, ilen: int)
    requires
        forall|j: int| 0 <= j < cmds.len() ==> match #[trigger] cmds[j] {
            DrawCommand::Elements { count, idx_offset, vtx_offset, .. } => {
                &&& idx_offset + count <= ilen
                &&& vtx_offset <= vlen
            },
            DrawCommand::Other => true,
        },
    ensures
        forall|k: int| 0 <= k < cmds_elements(cmds, vbase, ibase).len() ==> {
            let e = #[trigger] cmds_elements(cmds, vbase, ibase)[k];
            &&& e.1 + e.0 <= ibase + ilen
            &&& e.2 <= vbase + vlen
        },
    decreases cmds.len(),
{
    if cmds.len() > 0 {
        let prev = cmds.drop_last();
        assert forall|j: int| 0 <= j < prev.len() implies match #[trigger] prev[j] {
            DrawCommand::Elements { count, idx_offset, vtx_offset, .. } => {
                &&& idx_offset + count <= ilen
                &&& vtx_offset <= vlen
            },
            DrawCommand::Other => true,
        } by {
            assert(prev[j] == cmds[j]);
        }
        lemma_cmds_elements_in_bounds(prev, vbase, ibase, vlen, ilen);
        let last = cmds[cmds.len() - 1];
        assert(cmds.last() == last);
        let r = cmds_elements(cmds, vbase, ibase);
        let rp = cmds_elements(prev, vbase, ibase);
        assert forall|k: int| 0 <= k < r.len() implies {
            let e = #[trigger] r[k];
            &&& e.1 + e.0 <= ibase + ilen
            &&& e.2 <= vbase + vlen
        } by {
            if k < rp.len() {
                assert(r[k] == rp[k]);
            }
        }
    }
}

/// When every draw list keeps its element commands inside its own buffers,
/// every placed element lies inside the frame's buffers: laying the lists
/// out one after another moves no element outside.
pub proof fn law_placements_stay_in_frame(lists: Seq<DrawList>)
    requires
        forall|i: int| 0 <= i < lists.len() ==> list_in_bounds(#[trigger] lists[i]),
    ensures
        forall|k: int| 0 <= k < frame_elements(lists).len() ==> {
            let e = #[trigger] frame_elements(lists)[k];
            &&& e.1 + e.0 <= idx_total(lists)
            &&& e.2 <= vtx_total(lists)
        },
    decreases lists.len(),
{
    if lists.len() > 0 {
        let prev = lists.drop_last();
        let last = lists.last();
        assert forall|i: int| 0 <= i < prev.len() implies list_in_bounds(#[trigger] prev[i]) by {
            assert(prev[i] == lists[i]);
        }
        law_placements_stay_in_frame(prev);
        assert(list_in_bounds(lists[lists.len() - 1]));
        lemma_cmds_elements_in_bounds(last.commands@, vtx_total(prev), idx_total(prev), last.vtx_len as int, last.idx_len as int);
        let f = frame_elements(lists);
        let fp = frame_elements(prev);
        let c = cmds_elements(last.commands@, vtx_total(prev), idx_total(prev));
        assert(f =~= fp + c);
        assert forall|k: int| 0 <= k < f.len() implies {
            let e = #[trigger] f[k];
            &&& e.1 + e.0 <= idx_total(lists)
            &&& e.2 <= vtx_total(lists)
        } by {
            if k < fp.len() {
                assert(f[k] == fp[k]);
            } else {
                assert(f[k] == c[k - fp.len()]);
            }
        }
    }
}

} // verus!

verus! {

/// The buffers of all draw lists one after another.
pub open spec fn concat_buffers<V>(buffers: Seq<Vec<V>>) -> Seq<V>
    decreases buffers.len(),
{
    if buffers.len() == 0 {
        Seq::empty()
    } else {
        concat_buffers(buffers.drop_last()) + buffers.last()@
    }
}

/// Concatenates the vertex (or index) buffers of a frame's draw lists, in
/// order, into the frame's shared buffer.
pub fn concat_sub_buffers<V: Copy>(buffers: &Vec<Vec<V>>) -> (r: Vec<V>)
    ensures
        r@ == concat_buffers(buffers@),
{
    let mut r: Vec<V> = Vec::new();
    let mut i: usize = 0;
    while i < buffers.len()
        invariant
            0 <= i <= buffers@.len(),
            r@ == concat_buffers(buffers@.take(i as int)),
        decreases buffers@.len() - i,
    {
        let buffer = &buffers[i];
        let ghost before = r@;
        let mut j: usize = 0;
        while j < buffer.len()
            invariant
                0 <= j <= buffer@.len(),
                r@ == before + buffer@.take(j as int),
            decreases buffer@.len() - j,
        {
            r.push(buffer[j]);
            proof {
                assert(buffer@.take(j + 1) =~= buffer@.take(j as int).push(buffer@[j as int]));
                assert(r@ =~= before + buffer@.take(j + 1));
            }
            j = j + 1;
        }
        proof {
            assert(buffer@.take(j as int) =~= buffer@);
            assert(buffers@.take(i + 1).drop_last() =~= buffers@.take(i as int));
            assert(buffers@.take(i + 1).last() == buffers@[i as int]);
        }
        i = i + 1;
    }
    proof {
        assert(buffers@.take(i as int) =~= buffers@);
    }
    r
}

/// The total of buffer lengths of the draw lists.
pub open spec fn total_len<V>(buffers: Seq<Vec<V>>) -> int
    decreases buffers.len(),
{
    if buffers.len() == 0 { 0 } else { total_len(buffers.drop_last()) + buffers.last()@.len() }
}

/// The shared buffer holds every list's data in order: its length is the sum
/// of the lists' lengths, and the data of list `i` starts where the lists
/// before it end.
pub proof fn law_concat_places_each_buffer<V>(buffers: Seq<Vec<V>>, i: int, k: int)
    requires
        0 <= i < buffers.len(),
        0 <= k < buffers[i]@.len(),
    ensures
        concat_buffers(buffers).len() == total_len(buffers),
        concat_buffers(buffers)[total_len(buffers.take(i)) + k] == buffers[i]@[k],
    decreases buffers.len(),
{
    lemma_concat_len(buffers);
    let prev = buffers.drop_last();
    let whole = concat_buffers(buffers);
    assert(whole == concat_buffers(prev) + buffers.last()@);
    if i == buffers.len() - 1 {
        assert(buffers.take(i) =~= prev);
        lemma_concat_len(prev);
        assert(buffers.last() == buffers[i]);
        assert(whole[total_len(prev) + k] == buffers.last()@[k]);
    } else {
        assert(prev.take(i) =~= buffers.take(i));
        assert(prev[i] == buffers[i]);
        law_concat_places_each_buffer(prev, i, k);
        lemma_total_prefix(prev, i + 1);
        assert(prev.take(i + 1).drop_last() =~= prev.take(i));
        assert(prev.take(i + 1).last() == prev[i]);
        lemma_concat_len(prev);
        assert(total_len(prev.take(i + 1)) == total_len(prev.take(i)) + prev[i]@.len());
        lemma_concat_len(buffers.take(i));
        assert(total_len(buffers.take(i)) == total_len(prev.take(i)));
        assert(total_len(prev.take(i)) + k < total_len(prev));
        assert(concat_buffers(prev).len() == total_len(prev));
        assert(whole[total_len(buffers.take(i)) + k] == concat_buffers(prev)[total_len(buffers.take(i)) + k]);
    }
}

proof fn lemma_total_prefix<V>(buffers: Seq<Vec<V>>, j: int)
    requires
        0 <= j <= buffers.len(),
    ensures
        total_len(buffers.take(j)) <= total_len(buffers),
    decreases buffers.len(),
{
    if j < buffers.len() {
        assert(buffers.drop_last().take(j) =~= buffers.take(j));
        lemma_total_prefix(buffers.drop_last(), j);
    } else {
        assert(buffers.take(j) =~= buffers);
    }
}

proof fn lemma_concat_len<V>(buffers: Seq<Vec<V>>)
    ensures
        concat_buffers(buffers).len() == total_len(buffers),
    decreases buffers.len(),
{
    if buffers.len() > 0 {
        lemma_concat_len(buffers.drop_last());
    }
}

} // verus!

verus! {

/// Number of element commands among `cmds`.
pub open spec fn cmd_count(cmds: Seq<DrawCommand>) -> nat
    decreases cmds.len(),
{
    if cmds.len() == 0 {
        0
    } else {
        cmd_count(cmds.drop_last()) + match cmds.last() {
            DrawCommand::Elements { .. } => 1nat,
            DrawCommand::Other => 0nat,
        }
    }
}

/// Number of element commands in all the given draw lists.
pub open spec fn list_count(lists: Seq<DrawList>) -> nat
    decreases lists.len(),
{
    if lists.len() == 0 { 0 } else { list_count(lists.drop_last()) + cmd_count(lists.last().commands@) }
}

proof fn lemma_cmds_elements_len(cmds: Seq<DrawCommand>, vbase: int, ibase: int)
    ensures
        cmds_elements(cmds, vbase, ibase).len() == cmd_count(cmds),
    decreases cmds.len(),
{
    if cmds.len() > 0 {
        lemma_cmds_elements_len(cmds.drop_last(), vbase, ibase);
    }
}

proof fn lemma_frame_elements_len(lists: Seq<DrawList>)
    ensures
        frame_elements(lists).len() == list_count(lists),
    decreases lists.len(),
{
    if lists.len() > 0 {
        let prev = lists.drop_last();
        lemma_frame_elements_len(prev);
        lemma_cmds_elements_len(lists.last().commands@, vtx_total(prev), idx_total(prev));
    }
}

proof fn lemma_cmd_placement(cmds: Seq<DrawCommand>, vbase: int, ibase: int, j: int)
    requires
        0 <= j < cmds.len(),
        cmds[j] is Elements,
    ensures
        cmd_count(cmds.take(j)) < cmds_elements(cmds, vbase, ibase).len(),
        cmds_elements(cmds, vbase, ibase)[cmd_count(cmds.take(j)) as int] == (
            cmds[j]->count as int,
            ibase + cmds[j]->idx_offset,
            vbase + cmds[j]->vtx_offset,
            cmds[j]->texture_id as int,
        ),
    decreases cmds.len(),
{
    let prev = cmds.drop_last();
    lemma_cmds_elements_len(prev, vbase, ibase);
    if j == cmds.len() - 1 {
        assert(cmds.take(j) =~= prev);
    } else {
        assert(prev.take(j) =~= cmds.take(j));
        assert(prev[j] == cmds[j]);
        lemma_cmd_placement(prev, vbase, ibase, j);
    }
}

/// Where every element command lands: the `j`-th command of list `i`, when
/// it is an element command, is placed at position (number of element
/// commands before it, in earlier lists and earlier in its own list); its
/// index offset is its own offset plus the number of indices of all the
/// lists before list `i`, and its vertex offset its own offset plus the
/// number of vertices of those lists; its index count and texture are its
/// own. The frame has one placement per element command.
pub proof fn law_element_placement(lists: Seq<DrawList>, i: int, j: int)
    requires
        0 <= i < lists.len(),
        0 <= j < lists[i].commands@.len(),
        lists[i].commands@[j] is Elements,
    ensures
        frame_elements(lists).len() == list_count(lists),
        list_count(lists.take(i)) + cmd_count(lists[i].commands@.take(j)) < frame_elements(lists).len(),
        frame_elements(lists)[(list_count(lists.take(i)) + cmd_count(lists[i].commands@.take(j))) as int] == (
            lists[i].commands@[j]->count as int,
            idx_total(lists.take(i)) + lists[i].commands@[j]->idx_offset,
            vtx_total(lists.take(i)) + lists[i].commands@[j]->vtx_offset,
            lists[i].commands@[j]->texture_id as int,
        ),
    decreases lists.len(),
{
    lemma_frame_elements_len(lists);
    let prev = lists.drop_last();
    let last = lists.last();
    lemma_frame_elements_len(prev);
    let fp = frame_elements(prev);
    let c = cmds_elements(last.commands@, vtx_total(prev), idx_total(prev));
    assert(frame_elements(lists) == fp + c);
    if i == lists.len() - 1 {
        assert(lists.take(i) =~= prev);
        assert(last == lists[i]);
        lemma_cmd_placement(last.commands@, vtx_total(prev), idx_total(prev), j);
    } else {
        assert(prev.take(i) =~= lists.take(i));
        assert(prev[i] == lists[i]);
        law_element_placement(prev, i, j);
    }
}

} // verus!
