//! Groups of pictures and the bounded window of closed groups.
//!
//! A group is a run of units. It is opened by a key frame, or by the first
//! unit of a stream that has shown no key frame yet, and it is closed by the
//! next key frame. Closed groups are kept oldest first, up to a capacity that
//! is fixed when the window is made; closing one more drops the oldest.

use crate::channel::{units_view, ChannelData, ChannelDataView};
use std::collections::VecDeque;
use vstd::prelude::*;

verus! {

/// A run of units in arrival order.
#[derive(Debug)]
pub struct Gop {
    datas: Vec<ChannelData>,
}

impl View for Gop {
    type V = Seq<ChannelDataView>;

    closed spec fn view(&self) -> Seq<ChannelDataView> {
        units_view(self.datas@)
    }
}

impl Gop {
    /// A group with no unit in it.
    pub fn new() -> (gop: Gop)
        ensures
            gop@ == Seq::<ChannelDataView>::empty(),
    {
        Gop { datas: Vec::new() }
    }

    /// Appends a unit.
    pub fn save_frame_data(&mut self, data: ChannelData)
        ensures
            final(self)@ == old(self)@.push(data@),
    {
        self.datas.push(data);
    }

    /// The number of units in the group.
    pub fn len(&self) -> (n: usize)
        ensures
            n == self@.len(),
    {
        self.datas.len()
    }

    /// Hands the units out, in order.
    pub fn get_frame_data(self) -> (units: Vec<ChannelData>)
        ensures
            units_view(units@) == self@,
    {
        self.datas
    }
}

impl Clone for Gop {
    /// The copy holds copies of the same units in the same order.
    fn clone(&self) -> (copy: Self)
        ensures
            copy@ == self@,
    {
        let mut datas: Vec<ChannelData> = Vec::new();
        let mut i: usize = 0;
        while i < self.datas.len()
            invariant
                i <= self.datas.len(),
                datas.len() == i,
                forall|k: int| 0 <= k < i ==> datas@[k]@ == self.datas@[k]@,
            decreases self.datas.len() - i,
        {
            datas.push(self.datas[i].clone());
            i += 1;
        }
        Gop { datas }
    }
}

/// The views of a run of groups, in order.
pub open spec fn gops_view(gops: Seq<Gop>) -> Seq<Seq<ChannelDataView>> {
    Seq::new(gops.len(), |i: int| gops[i]@)
}

/// The view of a snapshot that may be absent.
pub open spec fn snapshot_view(snapshot: Option<VecDeque<Gop>>) -> Option<
    Seq<Seq<ChannelDataView>>,
> {
    match snapshot {
        Some(gops) => Some(gops_view(gops@)),
        None => None,
    }
}

/// One unit of a stream as the window sees it: the unit, and whether it is a
/// key frame.
pub struct Frame {
    pub unit: ChannelDataView,
    pub is_key_frame: bool,
}

/// The units of a run of frames, in order.
pub open spec fn units_of(frames: Seq<Frame>) -> Seq<ChannelDataView> {
    Seq::new(frames.len(), |i: int| frames[i].unit)
}

/// The runs a stream falls into, oldest first. The first frame starts a run,
/// every key frame starts a new one, and any other frame joins the newest run.
pub open spec fn frame_groups(frames: Seq<Frame>) -> Seq<Seq<Frame>>
    decreases frames.len(),
{
    if frames.len() == 0 {
        Seq::empty()
    } else {
        let before = frame_groups(frames.drop_last());
        let frame = frames.last();
        if frame.is_key_frame || before.len() == 0 {
            before.push(seq![frame])
        } else {
            before.drop_last().push(before.last().push(frame))
        }
    }
}

/// The groups of a stream, oldest first: the units of each of its runs.
pub open spec fn groups_of(frames: Seq<Frame>) -> Seq<Seq<ChannelDataView>> {
    Seq::new(frame_groups(frames).len(), |i: int| units_of(frame_groups(frames)[i]))
}

/// The last `n` of the groups, or all of them where there are no more than `n`.
pub open spec fn newest(groups: Seq<Seq<ChannelDataView>>, n: nat) -> Seq<Seq<ChannelDataView>> {
    if groups.len() <= n {
        groups
    } else {
        groups.skip(groups.len() - n)
    }
}

/// What a [`Gops`] holds: the closed groups oldest first, the group that is
/// still open, and the number of closed groups the window keeps.
pub struct GopsView {
    pub committed: Seq<Seq<ChannelDataView>>,
    pub open: Option<Seq<ChannelDataView>>,
    pub capacity: nat,
}

impl GopsView {
    /// A window that has seen no unit.
    pub open spec fn fresh(capacity: nat) -> GopsView {
        GopsView { committed: Seq::empty(), open: None, capacity }
    }

    /// At least one unit was recorded. The first unit opens a group, and from
    /// then on there is always an open group.
    pub open spec fn setted(self) -> bool {
        self.open is Some
    }

    /// The window is within its capacity and holds no empty group.
    pub open spec fn wf(self) -> bool {
        &&& self.committed.len() <= self.capacity
        &&& forall|i: int| 0 <= i < self.committed.len() ==> (#[trigger] self.committed[i]).len() > 0
        &&& self.open is Some ==> self.open->Some_0.len() > 0
    }

    /// The closed groups after one more group is closed: it goes to the back,
    /// and the oldest leaves where the window would be over its capacity.
    pub open spec fn commit(self, gop: Seq<ChannelDataView>) -> Seq<Seq<ChannelDataView>> {
        let all = self.committed.push(gop);
        if all.len() > self.capacity {
            all.drop_first()
        } else {
            all
        }
    }

    /// Every unit in the window, closed or open, is an audio unit.
    pub open spec fn audio_only(self) -> bool {
        &&& forall|i: int, j: int|
            0 <= i < self.committed.len() && 0 <= j < self.committed[i].len()
                ==> (#[trigger] self.committed[i][j]).is_audio()
        &&& self.open is Some ==> forall|j: int|
            0 <= j < self.open->Some_0.len() ==> (#[trigger] self.open->Some_0[j]).is_audio()
    }

    /// The window after a run of units, taken in one after the other.
    pub open spec fn feed(self, frames: Seq<Frame>) -> GopsView
        decreases frames.len(),
    {
        if frames.len() == 0 {
            self
        } else {
            self.feed(frames.drop_last()).save_frame(
                frames.last().unit,
                frames.last().is_key_frame,
            )
        }
    }

    /// The window after one more unit. A key frame closes the open group, if
    /// there is one, and opens a new group with the unit; any other unit joins
    /// the open group, or opens the first one.
    pub open spec fn save_frame(self, unit: ChannelDataView, is_key_frame: bool) -> GopsView {
        match self.open {
            Some(open) => if is_key_frame {
                GopsView {
                    committed: self.commit(open),
                    open: Some(seq![unit]),
                    capacity: self.capacity,
                }
            } else {
                GopsView {
                    committed: self.committed,
                    open: Some(open.push(unit)),
                    capacity: self.capacity,
                }
            },
            None => GopsView {
                committed: self.committed,
                open: Some(seq![unit]),
                capacity: self.capacity,
            },
        }
    }
}

/// A fresh window is well formed and holds nothing: no closed group, no open
/// group, no unit recorded.
pub proof fn lemma_fresh_window_is_empty(capacity: nat)
    ensures
        GopsView::fresh(capacity).wf(),
        GopsView::fresh(capacity).audio_only(),
        !GopsView::fresh(capacity).setted(),
        GopsView::fresh(capacity).committed.len() == 0,
{
}

/// Taking in a unit keeps a well-formed window well formed: the number of
/// closed groups never exceeds the capacity, the capacity never changes, and
/// from the first unit on a unit counts as recorded.
pub proof fn lemma_window_stays_within_capacity(
    window: GopsView,
    unit: ChannelDataView,
    is_key_frame: bool,
)
    requires
        window.wf(),
    ensures
        window.save_frame(unit, is_key_frame).wf(),
        window.save_frame(unit, is_key_frame).capacity == window.capacity,
        window.save_frame(unit, is_key_frame).setted(),
{
}

/// Closing a group evicts in arrival order: the closed groups afterwards are
/// the newest `capacity` of those before with the new one at the back.
pub proof fn lemma_commit_keeps_newest(window: GopsView, gop: Seq<ChannelDataView>)
    requires
        window.committed.len() <= window.capacity,
    ensures
        window.commit(gop) == newest(window.committed.push(gop), window.capacity),
{
}

/// The runs of a stream cut it up and lose nothing: put end to end they are
/// the stream. No run is empty, a key frame stands only at the start of a
/// run, and every run but the oldest starts with one.
pub proof fn lemma_groups_partition_stream(frames: Seq<Frame>)
    ensures
        frame_groups(frames).flatten() == frames,
        frame_groups(frames).len() > 0 <==> frames.len() > 0,
        forall|i: int|
            0 <= i < frame_groups(frames).len() ==> (#[trigger] frame_groups(frames)[i]).len() > 0,
        forall|i: int|
            0 < i < frame_groups(frames).len() ==> (#[trigger] frame_groups(
                frames,
            )[i])[0].is_key_frame,
        forall|i: int, j: int|
            0 <= i < frame_groups(frames).len() && 0 < j < frame_groups(frames)[i].len()
                ==> !(#[trigger] frame_groups(frames)[i][j]).is_key_frame,
    decreases frames.len(),
{
    broadcast use Seq::lemma_flatten_push;

    if frames.len() > 0 {
        let earlier = frames.drop_last();
        let before = frame_groups(earlier);
        lemma_groups_partition_stream(earlier);
        assert(frames =~= earlier.push(frames.last()));
        if before.len() > 0 {
            assert(before =~= before.drop_last().push(before.last()));
        }
    }
}

/// How the groups of a stream grow with its last frame.
proof fn lemma_groups_step(frames: Seq<Frame>)
    requires
        frames.len() > 0,
    ensures
        groups_of(frames).len() > 0,
        groups_of(frames.drop_last()).len() > 0 <==> frames.len() > 1,
        frames.last().is_key_frame || frames.len() == 1 ==> groups_of(frames) == groups_of(
            frames.drop_last(),
        ).push(seq![frames.last().unit]),
        !frames.last().is_key_frame && frames.len() > 1 ==> groups_of(frames) == groups_of(
            frames.drop_last(),
        ).drop_last().push(groups_of(frames.drop_last()).last().push(frames.last().unit)),
{
    let earlier = frames.drop_last();
    let frame = frames.last();
    lemma_groups_partition_stream(earlier);
    if frame.is_key_frame || frames.len() == 1 {
        assert(units_of(seq![frame]) =~= seq![frame.unit]);
    } else {
        let before = frame_groups(earlier);
        assert(units_of(before.last().push(frame)) =~= units_of(before.last()).push(frame.unit));
    }
}

/// After any stream, fed to a fresh window, the open group is the newest
/// group of the stream and the closed groups are the newest `capacity` of the
/// groups before it, oldest first. Older groups are gone, and the open group
/// is never among the closed ones.
pub proof fn lemma_window_holds_newest_closed_groups(capacity: nat, frames: Seq<Frame>)
    ensures
        GopsView::fresh(capacity).feed(frames).capacity == capacity,
        frames.len() == 0 ==> GopsView::fresh(capacity).feed(frames) == GopsView::fresh(capacity),
        frames.len() > 0 ==> GopsView::fresh(capacity).feed(frames).open == Some(
            groups_of(frames).last(),
        ),
        frames.len() > 0 ==> GopsView::fresh(capacity).feed(frames).committed == newest(
            groups_of(frames).drop_last(),
            capacity,
        ),
    decreases frames.len(),
{
    if frames.len() > 0 {
        lemma_window_holds_newest_closed_groups(capacity, frames.drop_last());
        lemma_groups_step(frames);
    }
}

/// A stream without a key frame never closes a group: fed to a fresh window,
/// it leaves no closed group, and all its units in the open one, in order.
pub proof fn lemma_stream_without_key_frame(capacity: nat, frames: Seq<Frame>)
    requires
        forall|i: int| 0 <= i < frames.len() ==> !(#[trigger] frames[i]).is_key_frame,
    ensures
        GopsView::fresh(capacity).feed(frames).committed == Seq::<Seq<ChannelDataView>>::empty(),
        frames.len() > 0 ==> GopsView::fresh(capacity).feed(frames).open == Some(units_of(frames)),
        frames.len() > 0 <==> GopsView::fresh(capacity).feed(frames).setted(),
    decreases frames.len(),
{
    if frames.len() > 0 {
        lemma_stream_without_key_frame(capacity, frames.drop_last());
    }
}

/// A unit that is no key frame closes nothing, and an audio unit leaves a
/// window of audio units a window of audio units.
pub proof fn lemma_audio_unit_keeps_audio_only(window: GopsView, unit: ChannelDataView)
    requires
        window.audio_only(),
        unit.is_audio(),
    ensures
        window.save_frame(unit, false).audio_only(),
        window.save_frame(unit, false).committed == window.committed,
        window.save_frame(unit, false).setted(),
{
}

/// A bounded window of closed groups, with the group that is still open.
#[derive(Debug)]
pub struct Gops {
    gops: VecDeque<Gop>,
    open: Option<Gop>,
    size: usize,
}

impl View for Gops {
    type V = GopsView;

    closed spec fn view(&self) -> GopsView {
        GopsView {
            committed: gops_view(self.gops@),
            open: match self.open {
                Some(gop) => Some(gop@),
                None => None,
            },
            capacity: self.size as nat,
        }
    }
}

impl Gops {
    /// An empty window that keeps up to `size` closed groups. With a `size`
    /// of 0 every group is dropped as soon as it is closed.
    pub fn new(size: usize) -> (gops: Gops)
        ensures
            gops@ == GopsView::fresh(size as nat),
            gops@.wf(),
    {
        let gops = Gops { gops: VecDeque::new(), open: None, size };
        assert(gops@.committed =~= Seq::empty());
        gops
    }

    /// Records one unit; `is_key_frame` says whether it starts a new group.
    pub fn save_frame_data(&mut self, data: ChannelData, is_key_frame: bool)
        ensures
            final(self)@ == old(self)@.save_frame(data@, is_key_frame),
            old(self)@.wf() ==> final(self)@.wf(),
    {
        let mut gop = match self.open.take() {
            Some(open) => {
                if is_key_frame {
                    self.commit(open);
                    Gop::new()
                } else {
                    open
                }
            },
            None => Gop::new(),
        };
        gop.save_frame_data(data);
        self.open = Some(gop);
    }

    /// Puts a closed group at the back of the window and drops the oldest
    /// where the window is then over its capacity.
    fn commit(&mut self, gop: Gop)
        ensures
            final(self)@.committed == old(self)@.commit(gop@),
            final(self).open == old(self).open,
            final(self).size == old(self).size,
    {
        self.gops.push_back(gop);
        if self.gops.len() > self.size {
            self.gops.pop_front();
        }
    }

    /// Whether any unit was ever recorded.
    pub fn setted(&self) -> (yes: bool)
        ensures
            yes == self@.setted(),
    {
        self.open.is_some()
    }

    /// A copy of the closed groups, oldest first. The open group is not part
    /// of it.
    pub fn get_gops(&self) -> (snapshot: VecDeque<Gop>)
        ensures
            gops_view(snapshot@) == self@.committed,
    {
        let mut snapshot: VecDeque<Gop> = VecDeque::new();
        let mut i: usize = 0;
        while i < self.gops.len()
            invariant
                i <= self.gops.len(),
                snapshot@.len() == i,
                forall|k: int| 0 <= k < i ==> snapshot@[k]@ == self.gops@[k]@,
            decreases self.gops.len() - i,
        {
            snapshot.push_back(self.gops[i].clone());
            i += 1;
        }
        snapshot
    }
}

impl Clone for Gops {
    /// The copy holds copies of the same groups and has the same capacity.
    fn clone(&self) -> (copy: Self)
        ensures
            copy@ == self@,
    {
        let open = match &self.open {
            Some(gop) => Some(gop.clone()),
            None => None,
        };
        Gops { gops: self.get_gops(), open, size: self.size }
    }
}

} // verus!
