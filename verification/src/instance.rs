//! Per-instantiation state: the port-number-indexed connection table, the
//! additive-mix gain, and the scratch-buffer bookkeeping used by additive
//! execution.  The table itself is a `vec_map::VecMap`; its contents are
//! named by `vm_entries` and every access goes through a trusted wrapper.

use vstd::prelude::*;
use vstd::set_lib::lemma_int_range;
use vstd::set_lib::lemma_len_subset;
use vstd::set_lib::lemma_subset_equality;
use vstd::set_lib::set_int_range;
use crate::connection::fresh_connection;
use crate::connection::BufPtr;
use crate::connection::PortConnection;
use crate::connection::PortData;
use crate::connection::SliceView;
use crate::meta::Port;
use crate::meta::PortDescriptor;
use crate::meta::ports_match;

verus! {

/// The port-number-indexed connection table of one instance, backed by a
/// `vec_map::VecMap` so that entries are stored and walked by port number.
#[verifier::external_body]
pub struct PortTable {
    m: vec_map::VecMap<PortData>,
}

/// The entries a connection table holds, keyed by port number.
pub uninterp spec fn vm_entries(t: PortTable) -> Map<int, PortData>;

impl View for PortTable {
    type V = Map<int, PortData>;

    open spec fn view(&self) -> Map<int, PortData> {
        vm_entries(*self)
    }
}

impl PortTable {
    /// Relies on vec_map::VecMap::new: creates a map with no entries.
    #[verifier::external_body]
    fn new() -> (r: PortTable)
        ensures
            r@.dom() =~= Set::<int>::empty(),
    {
        PortTable { m: vec_map::VecMap::new() }
    }

    /// Relies on vec_map::VecMap::insert: stores the value at the key,
    /// replacing any previous entry there and leaving every other key as it
    /// was.
    #[verifier::external_body]
    fn insert(&mut self, key: usize, value: PortData)
        ensures
            final(self)@ == vm_entries(*old(self)).insert(key as int, value),
    {
        self.m.insert(key, value);
    }

    /// Relies on vec_map::VecMap::len: the number of entries the map holds.
    #[verifier::external_body]
    fn len(&self) -> (r: usize)
        ensures
            self@.dom().finite() ==> r == self@.dom().len(),
    {
        self.m.len()
    }

    /// Relies on vec_map::VecMap::get: looks up the entry at the key.
    #[verifier::external_body]
    fn get(&self, key: usize) -> (r: Option<PortData>)
        ensures
            r matches Some(d) ==> self@.contains_key(key as int) && d == self@[key as int],
            r is None ==> !self@.contains_key(key as int),
    {
        self.m.get(key).copied()
    }
}

/// The IEEE-754 bit pattern of 1.0 in the host's 32-bit sample type: the
/// additive-mix gain every fresh instance starts with.
pub const GAIN_UNITY_BITS: u32 = 0x3F80_0000;

/// The state created by one `instantiate` call: the descriptor's port list,
/// the connection table populated by `connect_port`, the additive-mix gain
/// (as a sample bit pattern), the lengths of the scratch buffers the shell
/// keeps for additive execution, and the pointers saved while the table is
/// redirected at those buffers.
pub struct Instance {
    pub ports: Vec<Port>,
    pub port_map: PortTable,
    pub adding_gain: u32,
    pub scratch_lens: Vec<usize>,
    pub ptr_storage: Vec<BufPtr>,
}

impl Instance {
    /// The connection table's contents, keyed by port number.
    pub open spec fn entries(self) -> Map<int, PortData> {
        self.port_map@
    }

    /// How many ports the descriptor promised.
    pub open spec fn port_count(self) -> int {
        self.ports@.len() as int
    }

    /// Every connection sits at a valid port number and has the handle kind
    /// its port description promises.
    pub open spec fn wf(self) -> bool {
        &&& self.entries().dom().finite()
        &&& forall|k: int| #[trigger]
            self.entries().contains_key(k) ==> 0 <= k < self.port_count()
                && self.entries()[k].kind() == self.ports@[k].desc
    }

    /// Every port number has been supplied a connection.
    pub open spec fn complete(self) -> bool {
        forall|k: int| 0 <= k < self.port_count() ==> self.entries().contains_key(k)
    }

    /// A fresh instance: no port connected yet, additive gain 1.0, no scratch
    /// buffers and nothing saved.
    pub fn new(ports: Vec<Port>) -> (r: Instance)
        ensures
            r.wf(),
            r.ports == ports,
            r.entries() == Map::<int, PortData>::empty(),
            r.adding_gain == GAIN_UNITY_BITS,
            r.scratch_lens@ == Seq::<usize>::empty(),
            r.ptr_storage@ == Seq::<BufPtr>::empty(),
    {
        let r = Instance {
            ports,
            port_map: PortTable::new(),
            adding_gain: GAIN_UNITY_BITS,
            scratch_lens: Vec::new(),
            ptr_storage: Vec::new(),
        };
        proof {
            assert(r.scratch_lens@ =~= Seq::<usize>::empty());
            assert(r.ptr_storage@ =~= Seq::<BufPtr>::empty());
        }
        r
    }

    /// The kind of the port at a number, if the number is in range.
    pub fn port_kind(&self, port_num: usize) -> (r: Option<PortDescriptor>)
        ensures
            port_num < self.ports@.len() ==> r == Some(self.ports@[port_num as int].desc),
            port_num >= self.ports@.len() ==> r is None,
    {
        if port_num < self.ports.len() {
            Some(self.ports[port_num].desc)
        } else {
            None
        }
    }

    /// Records the host's data pointer for one port, building the
    /// kind-appropriate handle: a zero-length view for audio kinds, the
    /// scalar's address for control kinds.
    pub fn connect_port(&mut self, port_num: usize, data_location: usize)
        requires
            old(self).wf(),
            port_num < old(self).ports@.len(),
            old(self).ports@[port_num as int].desc != PortDescriptor::Invalid,
        ensures
            final(self).wf(),
            final(self).ports == old(self).ports,
            final(self).entries() == old(self).entries().insert(
                port_num as int,
                fresh_connection(old(self).ports@[port_num as int].desc, data_location),
            ),
            final(self).adding_gain == old(self).adding_gain,
            final(self).scratch_lens == old(self).scratch_lens,
            final(self).ptr_storage == old(self).ptr_storage,
    {
        let data = match self.ports[port_num].desc {
            PortDescriptor::AudioInput => PortData::AudioInput(
                SliceView { ptr: BufPtr::Host(data_location), len: 0 },
            ),
            PortDescriptor::AudioOutput => PortData::AudioOutput(
                SliceView { ptr: BufPtr::Host(data_location), len: 0 },
            ),
            PortDescriptor::ControlInput => PortData::ControlInput(data_location),
            PortDescriptor::ControlOutput => PortData::ControlOutput(data_location),
            PortDescriptor::Invalid => vstd::pervasive::unreached(),
        };
        self.port_map.insert(port_num, data);
    }

    /// Whether the table holds a connection for every port, decided, as the
    /// shell decides it, by comparing the table's size with the port count.
    pub fn is_complete(&self) -> (r: bool)
        requires
            self.wf(),
        ensures
            r == self.complete(),
    {
        let n = self.port_map.len();
        let r = n == self.ports.len();
        proof {
            let dom = self.entries().dom();
            let range = set_int_range(0, self.port_count());
            lemma_int_range(0, self.port_count());
            assert(dom.subset_of(range));
            if n == self.ports@.len() {
                lemma_subset_equality(dom, range);
                assert forall|k: int| 0 <= k < self.port_count() implies self.entries().contains_key(
                    k,
                ) by {
                    assert(range.contains(k));
                }
            } else {
                if self.complete() {
                    assert forall|k: int| range.contains(k) implies dom.contains(k) by {}
                    lemma_len_subset(range, dom);
                    lemma_len_subset(dom, range);
                    assert(false);
                }
            }
        }
        r
    }
}


/// A view refreshed for a block of `n` samples: audio views cover `n`
/// samples from their current base pointer, which is never moved; control
/// handles are untouched.
pub open spec fn refresh_view(d: PortData, n: usize) -> PortData {
    match d {
        PortData::AudioInput(v) => PortData::AudioInput(SliceView { ptr: v.ptr, len: n }),
        PortData::AudioOutput(v) => PortData::AudioOutput(SliceView { ptr: v.ptr, len: n }),
        _ => d,
    }
}

impl Instance {
    /// Stores the additive-mix gain (as a sample bit pattern); it takes
    /// effect on the next additive run and touches nothing else.
    pub fn set_run_adding_gain(&mut self, gain: u32)
        ensures
            final(self).adding_gain == gain,
            final(self).ports == old(self).ports,
            final(self).entries() == old(self).entries(),
            final(self).scratch_lens == old(self).scratch_lens,
            final(self).ptr_storage == old(self).ptr_storage,
            old(self).wf() ==> final(self).wf(),
    {
        self.adding_gain = gain;
    }

    /// The steady-state execution path, up to the author call: refreshes the
    /// length of every audio view to `sample_count` (the base pointers stay
    /// as connected) and returns the complete, port-ordered connection list
    /// the author's run method is to receive.  While any port is still
    /// unconnected the table is left untouched and no list is produced, so
    /// author code never sees an incomplete list.
    pub fn prepare_run(&mut self, sample_count: usize) -> (r: Option<Vec<PortConnection>>)
        requires
            old(self).wf(),
        ensures
            final(self).wf(),
            final(self).ports == old(self).ports,
            final(self).adding_gain == old(self).adding_gain,
            final(self).scratch_lens == old(self).scratch_lens,
            final(self).ptr_storage == old(self).ptr_storage,
            !old(self).complete() ==> r is None && final(self).entries() == old(self).entries(),
            old(self).complete() ==> (r matches Some(l) && l@.len() == old(self).port_count()
                && (forall|i: int|
                0 <= i < l@.len() ==> (#[trigger] l@[i]).data == refresh_view(
                    old(self).entries()[i],
                    sample_count,
                ) && ports_match(l@[i].port, old(self).ports@[i]))),
            old(self).complete() ==> final(self).entries().dom() == old(self).entries().dom() && (
            forall|i: int|
                old(self).entries().contains_key(i) ==> final(self).entries()[i] == refresh_view(
                    old(self).entries()[i],
                    sample_count,
                )),
    {
        if !self.is_complete() {
            return None;
        }
        let ghost m0 = self.entries();
        let count = self.ports.len();
        let mut list: Vec<PortConnection> = Vec::new();
        let mut i: usize = 0;
        while i < count
            invariant
                self.wf(),
                i <= count,
                count == self.port_count(),
                self.ports == old(self).ports,
                self.adding_gain == old(self).adding_gain,
                self.scratch_lens == old(self).scratch_lens,
                self.ptr_storage == old(self).ptr_storage,
                m0 == old(self).entries(),
                forall|k: int| 0 <= k < count ==> m0.contains_key(k),
                self.entries().dom() == m0.dom(),
                forall|k: int|
                    m0.contains_key(k) && k < i ==> self.entries()[k] == refresh_view(
                        m0[k],
                        sample_count,
                    ),
                forall|k: int| m0.contains_key(k) && k >= i ==> self.entries()[k] == m0[k],
                list@.len() == i,
                forall|j: int|
                    0 <= j < i ==> (#[trigger] list@[j]).data == refresh_view(m0[j], sample_count)
                        && ports_match(list@[j].port, self.ports@[j]),
            decreases count - i,
        {
            let d = match self.port_map.get(i) {
                Some(d) => d,
                None => {
                    proof {
                        assert(m0.contains_key(i as int));
                    }
                    vstd::pervasive::unreached()
                },
            };
            let nd = match d {
                PortData::AudioInput(v) => PortData::AudioInput(
                    SliceView { ptr: v.ptr, len: sample_count },
                ),
                PortData::AudioOutput(v) => PortData::AudioOutput(
                    SliceView { ptr: v.ptr, len: sample_count },
                ),
                other => other,
            };
            self.port_map.insert(i, nd);
            proof {
                assert(self.entries().dom() =~= m0.dom());
            }
            let port = self.ports[i].clone();
            list.push(PortConnection { port, data: nd });
            i = i + 1;
        }
        Some(list)
    }
}


/// How many audio-output connections sit at port numbers below `i`: the
/// position in the scratch-buffer pool of the audio output at port `i`.
pub open spec fn outs_before(m: Map<int, PortData>, i: int) -> nat
    decreases i,
{
    if i <= 0 {
        0
    } else {
        outs_before(m, i - 1) + (if m.contains_key(i - 1) && m[i - 1] is AudioOutput {
            1nat
        } else {
            0nat
        })
    }
}

/// The base pointers of the audio-output connections at port numbers below
/// `i`, in port order: what one additive pass saves before redirecting.
pub open spec fn saved_ptrs(m: Map<int, PortData>, i: int) -> Seq<BufPtr>
    decreases i,
{
    if i <= 0 {
        Seq::empty()
    } else {
        saved_ptrs(m, i - 1) + (if m.contains_key(i - 1) && m[i - 1] is AudioOutput {
            seq![m[i - 1].view_of().ptr]
        } else {
            Seq::<BufPtr>::empty()
        })
    }
}

/// A view redirected for additive execution: an audio output is pointed at
/// scratch buffer `k` for `n` samples, an audio input is refreshed to `n`
/// samples, a control handle is untouched.
pub open spec fn adding_view(d: PortData, k: nat, n: usize) -> PortData {
    match d {
        PortData::AudioInput(v) => PortData::AudioInput(SliceView { ptr: v.ptr, len: n }),
        PortData::AudioOutput(_) => PortData::AudioOutput(
            SliceView { ptr: BufPtr::Scratch(k as usize), len: n },
        ),
        _ => d,
    }
}

/// A view after the finishing pass of additive execution: an audio output is
/// pointed back at the saved pointer `p` for `n` samples, everything else is
/// untouched.
pub open spec fn restored_view(d: PortData, p: BufPtr, n: usize) -> PortData {
    match d {
        PortData::AudioOutput(_) => PortData::AudioOutput(SliceView { ptr: p, len: n }),
        _ => d,
    }
}

/// The scratch-buffer lengths after one additive pass over a pool that held
/// lengths `s`: the pool is grown (never shrunk) to at least `outs` buffers,
/// and every buffer to at least `n` samples.
pub open spec fn grown_scratch(s: Seq<usize>, outs: nat, n: usize) -> Seq<usize> {
    Seq::new(
        if s.len() >= outs {
            s.len()
        } else {
            outs
        },
        |j: int|
            if j < s.len() {
                if s[j] < n {
                    n
                } else {
                    s[j]
                }
            } else {
                n
            },
    )
}

/// There are never more audio outputs below a port number than ports.
pub proof fn lemma_outs_bound(m: Map<int, PortData>, i: int)
    requires
        i >= 0,
    ensures
        outs_before(m, i) <= i,
    decreases i,
{
    if i > 0 {
        lemma_outs_bound(m, i - 1);
    }
}

/// Walking further along the port order never loses an audio output.
pub proof fn lemma_outs_mono(m: Map<int, PortData>, i: int, j: int)
    requires
        0 <= i <= j,
    ensures
        outs_before(m, i) <= outs_before(m, j),
    decreases j,
{
    if i < j {
        lemma_outs_mono(m, i, j - 1);
    }
}

/// One pointer is saved per audio output walked.
pub proof fn lemma_saved_len(m: Map<int, PortData>, i: int)
    requires
        i >= 0,
    ensures
        saved_ptrs(m, i).len() == outs_before(m, i),
    decreases i,
{
    if i > 0 {
        lemma_saved_len(m, i - 1);
    }
}

/// Law: saved pointers pair with audio outputs positionally.  The pointer an
/// additive pass over ports `0..count` saves at position `outs_before(m, i)`
/// is exactly the base pointer the audio output at port `i` had, so the
/// finishing pass that restores and mixes by position hands every output its
/// own buffer back.
pub proof fn lemma_saved_pointer_pairs_output(m: Map<int, PortData>, count: int, i: int)
    requires
        0 <= i < count,
        m.contains_key(i),
        m[i] is AudioOutput,
    ensures
        saved_ptrs(m, count).len() == outs_before(m, count),
        outs_before(m, i) < outs_before(m, count),
        saved_ptrs(m, count)[outs_before(m, i) as int] == m[i].view_of().ptr,
    decreases count,
{
    lemma_saved_len(m, count);
    if count == i + 1 {
        lemma_saved_len(m, i);
    } else {
        lemma_saved_pointer_pairs_output(m, count - 1, i);
        lemma_outs_mono(m, i + 1, count - 1);
    }
}

/// Two tables with the same keys and the same handle kinds place their audio
/// outputs at the same scratch positions.
pub proof fn lemma_outs_agree(m1: Map<int, PortData>, m2: Map<int, PortData>, i: int)
    requires
        i >= 0,
        forall|k: int|
            0 <= k < i ==> (m1.contains_key(k) <==> m2.contains_key(k)) && (m1.contains_key(k)
                ==> ((#[trigger] m1[k]) is AudioOutput <==> m2[k] is AudioOutput)),
    ensures
        outs_before(m1, i) == outs_before(m2, i),
    decreases i,
{
    if i > 0 {
        lemma_outs_agree(m1, m2, i - 1);
    }
}

/// Law: a block-processing call refreshes an audio view's length to the call's
/// sample count but never moves its base pointer: two successive runs with
/// different sample counts leave the base exactly as it was connected, with
/// the view covering the latest count.
pub proof fn lemma_refresh_keeps_base(d: PortData, a: usize, b: usize)
    requires
        d.is_audio(),
    ensures
        refresh_view(refresh_view(d, a), b).view_of().ptr == d.view_of().ptr,
        refresh_view(refresh_view(d, a), b).view_of().len == b,
        refresh_view(refresh_view(d, a), b).kind() == d.kind(),
{
}

/// Law: one full additive cycle gives every audio output its host pointer
/// back.  Redirecting the output at port `i` to scratch position
/// `outs_before(m, i)` and then restoring it from the pointer saved at that
/// same position yields a view whose base is the pointer the port had before
/// the cycle, so a later plain run writes to host memory, not to scratch.
pub proof fn lemma_run_adding_round_trip(m: Map<int, PortData>, count: int, i: int, n: usize, n2: usize)
    requires
        0 <= i < count,
        m.contains_key(i),
        m[i] is AudioOutput,
    ensures
        restored_view(
            adding_view(m[i], outs_before(m, i), n),
            saved_ptrs(m, count)[outs_before(m, i) as int],
            n2,
        ) == PortData::AudioOutput(SliceView { ptr: m[i].view_of().ptr, len: n2 }),
{
    lemma_saved_pointer_pairs_output(m, count, i);
}

/// An instruction of the mixing pass: add scratch buffer `scratch_index`,
/// scaled by the instance's additive gain, into the first `len` samples at
/// `dest`, the pointer saved for the matching audio output.
#[derive(Clone, Copy, Debug, PartialEq, Eq, Structural)]
pub struct MixOp {
    pub dest: BufPtr,
    pub scratch_index: usize,
    pub len: usize,
}

impl Instance {
    /// Counts the audio-output connections in the table, in port order.
    pub fn count_outputs(&self) -> (r: usize)
        requires
            self.wf(),
        ensures
            r == outs_before(self.entries(), self.port_count()),
    {
        let mut k: usize = 0;
        let mut i: usize = 0;
        while i < self.ports.len()
            invariant
                self.wf(),
                i <= self.ports@.len(),
                k == outs_before(self.entries(), i as int),
                k <= i,
            decreases self.ports@.len() - i,
        {
            match self.port_map.get(i) {
                Some(PortData::AudioOutput(_)) => {
                    k = k + 1;
                },
                _ => {},
            }
            i = i + 1;
        }
        k
    }

    /// The additive execution path, up to the author call.  Grows the
    /// scratch pool to one buffer of at least `sample_count` samples per
    /// audio output (never shrinking anything), then walks the table once in
    /// port order: each audio output's pointer is saved and its view
    /// redirected at the next scratch buffer, each audio input's view is
    /// refreshed.  Returns the complete, port-ordered, redirected connection
    /// list for the author's run method, or nothing (and changes nothing)
    /// while any port is still unconnected.
    pub fn prepare_run_adding(&mut self, sample_count: usize) -> (r: Option<Vec<PortConnection>>)
        requires
            old(self).wf(),
        ensures
            final(self).wf(),
            final(self).ports == old(self).ports,
            final(self).adding_gain == old(self).adding_gain,
            !old(self).complete() ==> r is None && final(self).entries() == old(self).entries()
                && final(self).scratch_lens == old(self).scratch_lens && final(self).ptr_storage
                == old(self).ptr_storage,
            old(self).complete() ==> (r matches Some(l) && l@.len() == old(self).port_count() && (
            forall|i: int|
                0 <= i < l@.len() ==> (#[trigger] l@[i]).data == adding_view(
                    old(self).entries()[i],
                    outs_before(old(self).entries(), i),
                    sample_count,
                ) && ports_match(l@[i].port, old(self).ports@[i]))),
            old(self).complete() ==> final(self).entries().dom() == old(self).entries().dom() && (
            forall|i: int|
                old(self).entries().contains_key(i) ==> final(self).entries()[i] == adding_view(
                    old(self).entries()[i],
                    outs_before(old(self).entries(), i),
                    sample_count,
                )) && final(self).ptr_storage@ == saved_ptrs(
                old(self).entries(),
                old(self).port_count(),
            ) && final(self).scratch_lens@ == grown_scratch(
                old(self).scratch_lens@,
                outs_before(old(self).entries(), old(self).port_count()),
                sample_count,
            ),
    {
        if !self.is_complete() {
            return None;
        }
        let ghost m0 = self.entries();
        let ghost s0 = self.scratch_lens@;
        let count = self.ports.len();
        let outs = self.count_outputs();
        while self.scratch_lens.len() < outs
            invariant
                self.wf(),
                self.ports == old(self).ports,
                self.adding_gain == old(self).adding_gain,
                self.ptr_storage == old(self).ptr_storage,
                self.entries() == m0,
                self.scratch_lens@.len() >= s0.len() || self.scratch_lens@.len() < outs,
                forall|j: int| 0 <= j < s0.len() && j < self.scratch_lens@.len() ==> self.scratch_lens@[j] == s0[j],
                forall|j: int|
                    s0.len() <= j < self.scratch_lens@.len() ==> self.scratch_lens@[j] == 0,
                self.scratch_lens@.len() == s0.len() || s0.len() < self.scratch_lens@.len()
                    <= outs,
            decreases outs - self.scratch_lens@.len(),
        {
            self.scratch_lens.push(0);
        }
        let pool = self.scratch_lens.len();
        let mut j: usize = 0;
        while j < pool
            invariant
                self.wf(),
                self.ports == old(self).ports,
                self.adding_gain == old(self).adding_gain,
                self.ptr_storage == old(self).ptr_storage,
                self.entries() == m0,
                j <= pool,
                self.scratch_lens@.len() == pool,
                pool == if s0.len() >= outs as nat { s0.len() } else { outs as nat },
                forall|t: int| 0 <= t < s0.len() && t >= j ==> self.scratch_lens@[t] == s0[t],
                forall|t: int| s0.len() <= t < pool && t >= j ==> self.scratch_lens@[t] == 0,
                forall|t: int|
                    0 <= t < j ==> self.scratch_lens@[t] == grown_scratch(
                        s0,
                        outs as nat,
                        sample_count,
                    )[t],
            decreases pool - j,
        {
            if self.scratch_lens[j] < sample_count {
                self.scratch_lens.set(j, sample_count);
            }
            j = j + 1;
        }
        proof {
            assert(self.scratch_lens@ =~= grown_scratch(s0, outs as nat, sample_count));
        }
        let ghost gs = self.scratch_lens@;
        self.ptr_storage.clear();
        let mut list: Vec<PortConnection> = Vec::new();
        let mut k: usize = 0;
        let mut i: usize = 0;
        while i < count
            invariant
                self.wf(),
                i <= count,
                count == self.port_count(),
                self.ports == old(self).ports,
                self.adding_gain == old(self).adding_gain,
                self.scratch_lens@ == gs,
                m0 == old(self).entries(),
                forall|t: int| 0 <= t < count ==> m0.contains_key(t),
                self.entries().dom() == m0.dom(),
                forall|t: int|
                    m0.contains_key(t) && t < i ==> self.entries()[t] == adding_view(
                        m0[t],
                        outs_before(m0, t),
                        sample_count,
                    ),
                forall|t: int| m0.contains_key(t) && t >= i ==> self.entries()[t] == m0[t],
                k == outs_before(m0, i as int),
                k <= i,
                self.ptr_storage@ == saved_ptrs(m0, i as int),
                list@.len() == i,
                forall|t: int|
                    0 <= t < i ==> (#[trigger] list@[t]).data == adding_view(
                        m0[t],
                        outs_before(m0, t),
                        sample_count,
                    ) && ports_match(list@[t].port, self.ports@[t]),
            decreases count - i,
        {
            let d = match self.port_map.get(i) {
                Some(d) => d,
                None => {
                    proof {
                        assert(m0.contains_key(i as int));
                    }
                    vstd::pervasive::unreached()
                },
            };
            let nd = match d {
                PortData::AudioOutput(v) => {
                    self.ptr_storage.push(v.ptr);
                    let nd = PortData::AudioOutput(
                        SliceView { ptr: BufPtr::Scratch(k), len: sample_count },
                    );
                    k = k + 1;
                    nd
                },
                PortData::AudioInput(v) => PortData::AudioInput(
                    SliceView { ptr: v.ptr, len: sample_count },
                ),
                other => other,
            };
            self.port_map.insert(i, nd);
            proof {
                assert(self.entries().dom() =~= m0.dom());
                assert(self.ptr_storage@ =~= saved_ptrs(m0, i as int + 1));
            }
            let port = self.ports[i].clone();
            list.push(PortConnection { port, data: nd });
            i = i + 1;
        }
        Some(list)
    }

    /// The finishing pass of additive execution.  Walks the table in the
    /// same port order as the redirecting pass, and for the `k`-th audio
    /// output emits the mixing instruction pairing scratch buffer `k` with
    /// the `k`-th saved pointer, then restores the output's view to that
    /// pointer.  The two passes pair saved pointers and scratch buffers
    /// positionally; that pairing, not pointer values, is what the
    /// correctness of the mix rests on.
    pub fn finish_run_adding(&mut self, sample_count: usize) -> (r: Vec<MixOp>)
        requires
            old(self).wf(),
            old(self).ptr_storage@.len() == outs_before(
                old(self).entries(),
                old(self).port_count(),
            ),
        ensures
            final(self).wf(),
            final(self).ports == old(self).ports,
            final(self).adding_gain == old(self).adding_gain,
            final(self).scratch_lens == old(self).scratch_lens,
            final(self).ptr_storage == old(self).ptr_storage,
            final(self).entries().dom() == old(self).entries().dom(),
            forall|i: int|
                old(self).entries().contains_key(i) ==> final(self).entries()[i] == restored_view(
                    old(self).entries()[i],
                    old(self).ptr_storage@[outs_before(old(self).entries(), i) as int],
                    sample_count,
                ),
            r@.len() == outs_before(old(self).entries(), old(self).port_count()),
            forall|j: int|
                0 <= j < r@.len() ==> r@[j] == (MixOp {
                    dest: old(self).ptr_storage@[j],
                    scratch_index: j as usize,
                    len: sample_count,
                }),
    {
        let ghost m1 = self.entries();
        let count = self.ports.len();
        let mut ops: Vec<MixOp> = Vec::new();
        let mut k: usize = 0;
        let mut i: usize = 0;
        while i < count
            invariant
                self.wf(),
                i <= count,
                count == self.port_count(),
                self.ports == old(self).ports,
                self.adding_gain == old(self).adding_gain,
                self.scratch_lens == old(self).scratch_lens,
                self.ptr_storage == old(self).ptr_storage,
                self.ptr_storage@.len() == outs_before(m1, count as int),
                m1 == old(self).entries(),
                self.entries().dom() == m1.dom(),
                forall|t: int|
                    m1.contains_key(t) && t < i ==> self.entries()[t] == restored_view(
                        m1[t],
                        self.ptr_storage@[outs_before(m1, t) as int],
                        sample_count,
                    ),
                forall|t: int| m1.contains_key(t) && t >= i ==> self.entries()[t] == m1[t],
                k == outs_before(m1, i as int),
                k <= i,
                ops@.len() == k,
                forall|t: int|
                    0 <= t < k ==> ops@[t] == (MixOp {
                        dest: self.ptr_storage@[t],
                        scratch_index: t as usize,
                        len: sample_count,
                    }),
            decreases count - i,
        {
            match self.port_map.get(i) {
                Some(PortData::AudioOutput(_)) => {
                    proof {
                        lemma_outs_mono(m1, i as int + 1, count as int);
                    }
                    let dest = self.ptr_storage[k];
                    ops.push(MixOp { dest, scratch_index: k, len: sample_count });
                    self.port_map.insert(
                        i,
                        PortData::AudioOutput(SliceView { ptr: dest, len: sample_count }),
                    );
                    proof {
                        assert(self.entries().dom() =~= m1.dom());
                    }
                    k = k + 1;
                },
                _ => {},
            }
            i = i + 1;
        }
        proof {
            lemma_outs_bound(m1, count as int);
        }
        ops
    }

    /// Whether one saved pointer stands for each audio output in the table:
    /// the pairing the finishing pass of additive execution rests on.
    pub fn saved_count_matches(&self) -> (r: bool)
        requires
            self.wf(),
        ensures
            r == (self.ptr_storage@.len() == outs_before(self.entries(), self.port_count())),
    {
        let outs = self.count_outputs();
        self.ptr_storage.len() == outs
    }
}

} // verus!
