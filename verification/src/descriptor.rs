//! The descriptor builder and its construction ledger.  One metadata value
//! is turned into a flat, foreign-compatible record whose every
//! variable-length field is a separately owned buffer; the ledger names each
//! owned allocation, and teardown walks the same ledger in reverse, so the
//! set freed is exactly the set built.

use vstd::prelude::*;
use crate::meta::default_value_code;
use crate::meta::port_kind_code;
use crate::meta::PluginDescriptor;
use crate::meta::Port;

verus! {

/// A byte buffer that can cross the boundary as a null-terminated string:
/// it holds no terminator byte of its own.
pub open spec fn nul_free(s: Seq<u8>) -> bool {
    forall|i: int| 0 <= i < s.len() ==> s[i] != 0
}

/// The owned, null-terminated copy of a byte buffer the host is handed.
pub open spec fn c_str_of(s: Seq<u8>) -> Seq<u8> {
    s.push(0)
}

/// Every string a metadata value carries is free of terminator bytes.
pub open spec fn meta_nul_free(m: PluginDescriptor) -> bool {
    &&& nul_free(m.label@)
    &&& nul_free(m.name@)
    &&& nul_free(m.maker@)
    &&& nul_free(m.copyright@)
    &&& forall|i: int| 0 <= i < m.ports@.len() ==> nul_free((#[trigger] m.ports@[i]).name@)
}

/// Building a descriptor fails only on a build-time contract violation: an
/// author string that cannot become a null-terminated string.
#[derive(Clone, Copy, Debug, PartialEq, Eq, Structural)]
pub enum DescriptorError {
    InteriorNul,
}

/// One record of the flat range-hint array: the combined hint word and the
/// two bounds as sample bit patterns (all bits clear when absent).
#[derive(Clone, Copy, Debug, PartialEq, Eq, Structural)]
pub struct PortRangeHint {
    pub hint_descriptor: i32,
    pub lower_bound: u32,
    pub upper_bound: u32,
}

/// The combined range-hint word of one port: its control-hint bits combined
/// bitwise with its symbolic default's code.
pub open spec fn hint_descriptor_of(p: Port) -> i32 {
    (match p.hint {
        Some(h) => h.bits,
        None => 0,
    }) | (match p.default {
        Some(d) => default_value_code(d),
        None => 0,
    })
}

/// The flat range-hint record of one port.
pub open spec fn range_hint_of(p: Port) -> PortRangeHint {
    PortRangeHint {
        hint_descriptor: hint_descriptor_of(p),
        lower_bound: match p.lower_bound {
            Some(b) => b,
            None => 0,
        },
        upper_bound: match p.upper_bound {
            Some(b) => b,
            None => 0,
        },
    }
}

/// The flat, foreign-compatible mirror of one plugin's metadata.  The four
/// identity strings and every port name are owned, null-terminated buffers;
/// the three per-port arrays are sized to the port count; and the metadata
/// the record was built from rides along as the opaque back-reference the
/// shell recovers typed port descriptions from.
pub struct Descriptor {
    pub unique_id: u64,
    pub label: Vec<u8>,
    pub properties: i32,
    pub name: Vec<u8>,
    pub maker: Vec<u8>,
    pub copyright: Vec<u8>,
    pub port_count: usize,
    pub port_descriptors: Vec<i32>,
    pub port_names: Vec<Vec<u8>>,
    pub port_range_hints: Vec<PortRangeHint>,
    pub meta: PluginDescriptor,
}

/// The flat record carries exactly the metadata it was built from.
pub open spec fn descriptor_matches(d: Descriptor, m: PluginDescriptor) -> bool {
    &&& d.unique_id == m.unique_id
    &&& d.properties == m.properties.bits
    &&& d.label@ == c_str_of(m.label@)
    &&& d.name@ == c_str_of(m.name@)
    &&& d.maker@ == c_str_of(m.maker@)
    &&& d.copyright@ == c_str_of(m.copyright@)
    &&& d.port_count == m.ports@.len()
    &&& d.port_descriptors@.len() == m.ports@.len()
    &&& (forall|i: int|
        0 <= i < m.ports@.len() ==> d.port_descriptors@[i] == port_kind_code(
            (#[trigger] m.ports@[i]).desc,
        ))
    &&& d.port_names@.len() == m.ports@.len()
    &&& (forall|i: int|
        0 <= i < m.ports@.len() ==> (#[trigger] d.port_names@[i])@ == c_str_of(m.ports@[i].name@))
    &&& d.port_range_hints@.len() == m.ports@.len()
    &&& (forall|i: int|
        0 <= i < m.ports@.len() ==> d.port_range_hints@[i] == range_hint_of(
            #[trigger] m.ports@[i],
        ))
    &&& d.meta == m
}

/// Copies author bytes into the owned, null-terminated buffer the host is
/// handed; an interior terminator byte is the build-time contract violation
/// the builder rejects.
pub fn make_c_string(v: &Vec<u8>) -> (r: Result<Vec<u8>, DescriptorError>)
    ensures
        r matches Ok(c) ==> nul_free(v@) && c@ == c_str_of(v@),
        r is Err <==> !nul_free(v@),
{
    let mut out: Vec<u8> = Vec::new();
    let mut i: usize = 0;
    while i < v.len()
        invariant
            i <= v@.len(),
            out@ == v@.subrange(0, i as int),
            forall|j: int| 0 <= j < i ==> v@[j] != 0,
        decreases v@.len() - i,
    {
        let b = v[i];
        if b == 0 {
            return Err(DescriptorError::InteriorNul);
        }
        out.push(b);
        i = i + 1;
        proof {
            assert(out@ =~= v@.subrange(0, i as int));
        }
    }
    out.push(0);
    proof {
        assert(v@.subrange(0, v@.len() as int) =~= v@);
        assert(out@ =~= c_str_of(v@));
    }
    Ok(out)
}

/// Builds the flat descriptor for one metadata value, which is moved in and
/// kept: each string is copied into an owned, null-terminated buffer, the
/// port-kind, port-name and range-hint arrays are filled in port order, and
/// the metadata itself becomes the record's back-reference.  Fails exactly
/// when some author string holds an interior terminator byte.
pub fn build_descriptor(meta: PluginDescriptor) -> (r: Result<Descriptor, DescriptorError>)
    ensures
        r matches Ok(d) ==> meta_nul_free(meta) && descriptor_matches(d, meta),
        r is Err <==> !meta_nul_free(meta),
{
    let label = match make_c_string(&meta.label) {
        Ok(c) => c,
        Err(e) => {
            return Err(e);
        },
    };
    let name = match make_c_string(&meta.name) {
        Ok(c) => c,
        Err(e) => {
            return Err(e);
        },
    };
    let maker = match make_c_string(&meta.maker) {
        Ok(c) => c,
        Err(e) => {
            return Err(e);
        },
    };
    let copyright = match make_c_string(&meta.copyright) {
        Ok(c) => c,
        Err(e) => {
            return Err(e);
        },
    };
    let mut port_descriptors: Vec<i32> = Vec::new();
    let mut port_names: Vec<Vec<u8>> = Vec::new();
    let mut port_range_hints: Vec<PortRangeHint> = Vec::new();
    let mut i: usize = 0;
    while i < meta.ports.len()
        invariant
            i <= meta.ports@.len(),
            port_descriptors@.len() == i,
            forall|j: int|
                0 <= j < i ==> port_descriptors@[j] == port_kind_code(
                    (#[trigger] meta.ports@[j]).desc,
                ),
            port_names@.len() == i,
            forall|j: int|
                0 <= j < i ==> (#[trigger] port_names@[j])@ == c_str_of(meta.ports@[j].name@),
            forall|j: int| 0 <= j < i ==> nul_free((#[trigger] meta.ports@[j]).name@),
            port_range_hints@.len() == i,
            forall|j: int|
                0 <= j < i ==> port_range_hints@[j] == range_hint_of(#[trigger] meta.ports@[j]),
        decreases meta.ports@.len() - i,
    {
        let pname = match make_c_string(&meta.ports[i].name) {
            Ok(c) => c,
            Err(e) => {
                return Err(e);
            },
        };
        port_names.push(pname);
        port_descriptors.push(meta.ports[i].desc.code());
        let hint_bits: i32 = match meta.ports[i].hint {
            Some(h) => h.bits,
            None => 0,
        };
        let default_bits: i32 = match meta.ports[i].default {
            Some(d) => d.code(),
            None => 0,
        };
        let lower: u32 = match meta.ports[i].lower_bound {
            Some(b) => b,
            None => 0,
        };
        let upper: u32 = match meta.ports[i].upper_bound {
            Some(b) => b,
            None => 0,
        };
        port_range_hints.push(
            PortRangeHint {
                hint_descriptor: hint_bits | default_bits,
                lower_bound: lower,
                upper_bound: upper,
            },
        );
        i = i + 1;
    }
    let port_count = meta.ports.len();
    Ok(
        Descriptor {
            unique_id: meta.unique_id,
            label,
            properties: meta.properties.bits,
            name,
            maker,
            copyright,
            port_count,
            port_descriptors,
            port_names,
            port_range_hints,
            meta,
        },
    )
}

/// One owned allocation of a flat descriptor, as the construction ledger
/// names it.
#[derive(Clone, Copy, Debug, PartialEq, Eq, Structural)]
pub enum OwnedAlloc {
    LabelString,
    NameString,
    MakerString,
    CopyrightString,
    KindArray,
    PortNameString(usize),
    NameArray,
    HintArray,
    MetaBox,
    Record,
}

/// The order in which the builder makes the owned allocations of a
/// descriptor with `n` ports.
pub open spec fn build_order(n: nat) -> Seq<OwnedAlloc> {
    seq![
        OwnedAlloc::LabelString,
        OwnedAlloc::NameString,
        OwnedAlloc::MakerString,
        OwnedAlloc::CopyrightString,
        OwnedAlloc::KindArray,
    ] + Seq::new(n, |i: int| OwnedAlloc::PortNameString(i as usize)) + seq![
        OwnedAlloc::NameArray,
        OwnedAlloc::HintArray,
        OwnedAlloc::MetaBox,
        OwnedAlloc::Record,
    ]
}

/// The order in which teardown frees them: the reverse of construction.
pub open spec fn teardown_order(n: nat) -> Seq<OwnedAlloc> {
    build_order(n).reverse()
}

/// Law: teardown frees exactly the allocations construction made — the two
/// ledgers hold the same multiset of owned allocations, so every allocation
/// is freed exactly once: no leak and no double free.
pub proof fn lemma_teardown_frees_exactly_once(n: nat)
    ensures
        teardown_order(n).to_multiset() == build_order(n).to_multiset(),
{
    build_order(n).lemma_reverse_to_multiset();
}

/// The construction ledger of a descriptor with `port_count` ports: every
/// owned allocation the builder makes, in the order it makes them.
pub fn construction_ledger(port_count: usize) -> (r: Vec<OwnedAlloc>)
    ensures
        r@ == build_order(port_count as nat),
{
    let mut r: Vec<OwnedAlloc> = Vec::new();
    r.push(OwnedAlloc::LabelString);
    r.push(OwnedAlloc::NameString);
    r.push(OwnedAlloc::MakerString);
    r.push(OwnedAlloc::CopyrightString);
    r.push(OwnedAlloc::KindArray);
    let ghost head = r@;
    let mut i: usize = 0;
    while i < port_count
        invariant
            i <= port_count,
            r@ == head + Seq::new(i as nat, |t: int| OwnedAlloc::PortNameString(t as usize)),
        decreases port_count - i,
    {
        r.push(OwnedAlloc::PortNameString(i));
        i = i + 1;
        proof {
            assert(r@ =~= head + Seq::new(
                i as nat,
                |t: int| OwnedAlloc::PortNameString(t as usize),
            ));
        }
    }
    r.push(OwnedAlloc::NameArray);
    r.push(OwnedAlloc::HintArray);
    r.push(OwnedAlloc::MetaBox);
    r.push(OwnedAlloc::Record);
    proof {
        assert(r@ =~= build_order(port_count as nat));
    }
    r
}

/// The teardown ledger of a descriptor with `port_count` ports: every owned
/// allocation to free, in reverse of construction order.
pub fn teardown_ledger(port_count: usize) -> (r: Vec<OwnedAlloc>)
    ensures
        r@ == teardown_order(port_count as nat),
{
    let fwd = construction_ledger(port_count);
    let mut r: Vec<OwnedAlloc> = Vec::new();
    let mut i: usize = fwd.len();
    while i > 0
        invariant
            i <= fwd@.len(),
            r@.len() == fwd@.len() - i,
            forall|j: int| 0 <= j < r@.len() ==> r@[j] == fwd@[fwd@.len() - 1 - j],
        decreases i,
    {
        i = i - 1;
        r.push(fwd[i]);
    }
    proof {
        assert(r@ =~= fwd@.reverse());
    }
    r
}

} // verus!
