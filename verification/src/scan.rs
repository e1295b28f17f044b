//! The subnet scanner's verified core: which addresses a scan probes,
//! and what becomes of the probe outcomes.
//!
//! A scan takes a base address and a literal dotted netmask, derives
//! the network from them, and probes every address of the network —
//! network and broadcast addresses included — concurrently with a
//! short per-probe timeout. The concurrency is the unverified shell's
//! part; the address enumeration, the collection of the successful
//! probes in range order, and the recording of newly found devices are
//! verified here. Addresses are handled as 32-bit values and rendered
//! dotted only at the edges.

use vstd::prelude::*;

use crate::config::{spec_first_match, Config, Device};
use crate::models::SystemInfo;
use crate::text::{spec_udigits, u64_to_string};

verus! {

/// Whether a value is a power of two: one, or an even number whose
/// half is one.
pub open spec fn spec_is_pow2(n: int) -> bool
    decreases n,
{
    if n <= 0 {
        false
    } else if n == 1 {
        true
    } else if n % 2 == 1 {
        false
    } else {
        spec_is_pow2(n / 2)
    }
}

/// How many addresses the mask leaves to the network: the size of the
/// host part. For a valid netmask — ones, then zeros — this is a power
/// of two, and the test below is exactly netmask validity.
pub open spec fn spec_host_count(mask: u32) -> int {
    0x1_0000_0000 - mask as int
}

/// A valid netmask leaves a power of two of addresses.
pub open spec fn spec_is_netmask(mask: u32) -> bool {
    spec_is_pow2(spec_host_count(mask))
}

/// The first address of the network a base address and mask define:
/// the base rounded down to a multiple of the network's size.
pub open spec fn spec_network(base: u32, mask: u32) -> int {
    base as int - (base as int % spec_host_count(mask))
}

fn is_pow2_u64(n: u64) -> (r: bool)
    ensures
        r == spec_is_pow2(n as int),
{
    if n == 0 {
        return false;
    }
    let mut m: u64 = n;
    while m > 1 && m % 2 == 0
        invariant
            m >= 1,
            spec_is_pow2(n as int) == spec_is_pow2(m as int),
        decreases m,
    {
        m = m / 2;
    }
    m == 1
}

/// A power of two divides every power of two at least as large.
proof fn lemma_pow2_divides(h: int, m: int)
    requires
        spec_is_pow2(h),
        spec_is_pow2(m),
        h <= m,
    ensures
        m % h == 0,
    decreases m,
{
    if h == 1 {
    } else if h == m {
        vstd::arithmetic::div_mod::lemma_mod_self_0(m);
    } else {
        lemma_pow2_divides(h / 2, m / 2);
        let a = m / 2;
        let bb = h / 2;
        vstd::arithmetic::div_mod::lemma_fundamental_div_mod(m, 2);
        vstd::arithmetic::div_mod::lemma_fundamental_div_mod(h, 2);
        let k = a / bb;
        vstd::arithmetic::div_mod::lemma_fundamental_div_mod(a, bb);
        assert(a == bb * k);
        assert(m == k * h) by (nonlinear_arith)
            requires
                m == 2 * a,
                h == 2 * bb,
                a == bb * k,
        ;
        vstd::arithmetic::div_mod::lemma_mod_multiples_basic(k, h);
    }
}

/// The addresses a scan of `base` under `mask` probes: every address
/// of the network the two define, in ascending order, each exactly
/// once — the network and broadcast addresses included. Nothing when
/// the mask is not a valid netmask.
pub fn scan_targets(base: u32, mask: u32) -> (r: Option<Vec<u32>>)
    ensures
        r matches Some(v) ==> {
            &&& spec_is_netmask(mask)
            &&& v@.len() == spec_host_count(mask)
            &&& forall|i: int|
                0 <= i < v@.len() ==> v@[i] as int == spec_network(base, mask) + i
        },
        r is None ==> !spec_is_netmask(mask),
{
    let h: u64 = 4294967296u64 - mask as u64;
    if !is_pow2_u64(h) {
        return None;
    }
    proof {
        assert(spec_is_pow2(4294967296)) by {
            reveal_with_fuel(spec_is_pow2, 34);
        }
        lemma_pow2_divides(h as int, 4294967296);
    }
    let b: u64 = base as u64;
    proof {
        vstd::arithmetic::div_mod::lemma_mod_bound(b as int, h as int);
        vstd::arithmetic::div_mod::lemma_remainder_lower(b as int, h as int);
        vstd::arithmetic::div_mod::lemma_fundamental_div_mod(b as int, h as int);
    }
    let network: u64 = b - b % h;
    proof {
        let hi = h as int;
        let q = b as int / hi;
        assert(b as int == hi * q + b as int % hi);
        assert(network as int == hi * q);
        let c: int = 4294967296int / hi;
        vstd::arithmetic::div_mod::lemma_fundamental_div_mod(4294967296, hi);
        assert(c * hi == 4294967296);
        assert(q < c) by (nonlinear_arith)
            requires
                hi * q <= b as int,
                (b as int) < 4294967296,
                c * hi == 4294967296,
                hi > 0,
        ;
        assert((q + 1) * hi <= c * hi) by (nonlinear_arith)
            requires
                q + 1 <= c,
                hi > 0,
        ;
        assert((q + 1) * hi == hi * q + hi) by (nonlinear_arith);
        assert(network as int + hi <= 4294967296);
    }
    let mut out: Vec<u32> = Vec::new();
    let mut i: u64 = 0;
    while i < h
        invariant
            0 <= i <= h,
            network as int + h as int <= 4294967296,
            out@.len() == i,
            forall|j: int| 0 <= j < i ==> out@[j] as int == network as int + j,
        decreases h - i,
    {
        out.push((network + i) as u32);
        i += 1;
    }
    Some(out)
}

/// The addresses of a scan's target list ascend strictly: no address
/// is probed twice, and range order is ascending address order.
pub proof fn lemma_scan_targets_ascending(base: u32, mask: u32, v: Seq<u32>)
    requires
        v.len() == spec_host_count(mask),
        forall|i: int| 0 <= i < v.len() ==> v[i] as int == spec_network(base, mask) + i,
    ensures
        forall|i: int, j: int| 0 <= i < j < v.len() ==> v[i] < v[j],
{
}

/// What a finished scan keeps: of the probe outcomes, in probe order,
/// exactly the successful ones, each as its address with the state the
/// device reported. Unreachable addresses are dropped in silence —
/// absence of a host is expected, never a failure of the scan.
pub open spec fn spec_collect(s: Seq<(u32, Option<SystemInfo>)>) -> Seq<(u32, SystemInfo)>
    decreases s.len(),
{
    if s.len() == 0 {
        Seq::empty()
    } else {
        let rest = spec_collect(s.drop_first());
        match s[0].1 {
            Some(info) => seq![(s[0].0, info)] + rest,
            None => rest,
        }
    }
}

/// Collect the successful probes of a scan, in probe order.
pub fn collect_responses(probes: Vec<(u32, Option<SystemInfo>)>) -> (r: Vec<(u32, SystemInfo)>)
    ensures
        r@ == spec_collect(probes@),
{
    let ghost all = probes@;
    let mut probes = probes;
    let mut out: Vec<(u32, SystemInfo)> = Vec::new();
    while probes.len() > 0
        invariant
            spec_collect(all) == out@ + spec_collect(probes@),
        decreases probes@.len(),
    {
        let ghost before = probes@;
        let head = probes.remove(0);
        proof {
            assert(before.remove(0) =~= before.drop_first());
        }
        match head.1 {
            Some(info) => {
                out.push((head.0, info));
                proof {
                    assert(out@ + spec_collect(probes@) =~= spec_collect(all));
                }
            },
            None => {},
        }
    }
    proof {
        assert(out@ + spec_collect(probes@) =~= out@);
    }
    out
}

/// Every kept scan entry is a successful probe, and every successful
/// probe is kept: collection neither invents nor loses a responding
/// address.
pub proof fn lemma_collect_members(s: Seq<(u32, Option<SystemInfo>)>)
    ensures
        forall|p: (u32, SystemInfo)|
            spec_collect(s).contains(p) <==> s.contains((p.0, Some(p.1))),
    decreases s.len(),
{
    if s.len() == 0 {
    } else {
        lemma_collect_members(s.drop_first());
        assert forall|p: (u32, SystemInfo)|
            spec_collect(s).contains(p) <==> s.contains((p.0, Some(p.1))) by {
            let rest = spec_collect(s.drop_first());
            if spec_collect(s).contains(p) {
                let i = choose|i: int|
                    0 <= i < spec_collect(s).len() && spec_collect(s)[i] == p;
                match s[0].1 {
                    Some(info) => {
                        if i == 0 {
                            assert(s[0] == (p.0, Some(p.1)));
                        } else {
                            assert(rest[i - 1] == p);
                            assert(rest.contains(p));
                            let j = choose|j: int|
                                0 <= j < s.drop_first().len() && s.drop_first()[j] == (
                                p.0,
                                Some(p.1),
                                );
                            assert(s[j + 1] == (p.0, Some(p.1)));
                        }
                    },
                    None => {
                        assert(rest.contains(p));
                        let j = choose|j: int|
                            0 <= j < s.drop_first().len() && s.drop_first()[j] == (p.0, Some(p.1));
                        assert(s[j + 1] == (p.0, Some(p.1)));
                    },
                }
            }
            if s.contains((p.0, Some(p.1))) {
                let i = choose|i: int| 0 <= i < s.len() && s[i] == (p.0, Some(p.1));
                if i == 0 {
                    match s[0].1 {
                        Some(info) => {
                            assert(spec_collect(s)[0] == p);
                        },
                        None => {},
                    }
                } else {
                    assert(s.drop_first()[i - 1] == (p.0, Some(p.1)));
                    assert(s.drop_first().contains((p.0, Some(p.1))));
                    assert(rest.contains(p));
                    let j = choose|j: int| 0 <= j < rest.len() && rest[j] == p;
                    match s[0].1 {
                        Some(info) => {
                            assert(spec_collect(s)[j + 1] == p);
                        },
                        None => {},
                    }
                }
            }
        }
    }
}

/// When the probes ran in ascending address order — as the target list
/// has them — the collected results are in ascending address order
/// too, whatever order the responses came back in.
pub proof fn lemma_collect_keeps_ascending_order(s: Seq<(u32, Option<SystemInfo>)>)
    requires
        forall|i: int, j: int| 0 <= i < j < s.len() ==> s[i].0 < s[j].0,
    ensures
        forall|i: int, j: int|
            0 <= i < j < spec_collect(s).len() ==> spec_collect(s)[i].0 < spec_collect(s)[j].0,
    decreases s.len(),
{
    if s.len() > 0 {
        let rest = s.drop_first();
        assert(forall|i: int, j: int| 0 <= i < j < rest.len() ==> rest[i].0 < rest[j].0);
        lemma_collect_keeps_ascending_order(rest);
        lemma_collect_members(rest);
        let collected = spec_collect(s);
        match s[0].1 {
            Some(info) => {
                assert(collected == seq![(s[0].0, info)] + spec_collect(rest));
                assert forall|i: int, j: int|
                    0 <= i < j < collected.len() implies collected[i].0 < collected[j].0 by {
                    if i == 0 {
                        let p = spec_collect(rest)[j - 1];
                        assert(spec_collect(rest).contains(p));
                        let k = choose|k: int| 0 <= k < rest.len() && rest[k] == (p.0, Some(p.1));
                        assert(rest[k].0 == s[k + 1].0);
                        assert(s[0].0 < s[k + 1].0);
                    } else {
                        assert(collected[i] == spec_collect(rest)[i - 1]);
                        assert(collected[j] == spec_collect(rest)[j - 1]);
                    }
                }
            },
            None => {},
        }
    }
}

/// One line of the scan table: the responding address, the alias the
/// device book knows it under (or "None"), and the board and firmware
/// versions it reported.
#[derive(Debug, Clone)]
pub struct ScanRow {
    pub address: String,
    pub alias: String,
    pub board_version: String,
    pub version: String,
}

/// Build the scan table from the collected responses: one row per
/// responding address, in response order, with the alias looked up in
/// the device book.
pub fn scan_rows(config: &Config, results: &Vec<(u32, SystemInfo)>) -> (rows: Vec<ScanRow>)
    ensures
        rows@.len() == results@.len(),
        forall|i: int|
            0 <= i < rows@.len() ==> {
                &&& (#[trigger] rows@[i]).address@ == spec_ipv4(results@[i].0)
                &&& rows@[i].board_version@ == results@[i].1.board_version@
                &&& rows@[i].version@ == results@[i].1.version@
                &&& rows@[i].alias@ == match spec_first_match(
                    config.inner.devices@,
                    spec_ipv4(results@[i].0),
                ) {
                    Some(d) => match d.alias {
                        Some(a) => a@,
                        None => "None"@,
                    },
                    None => "None"@,
                }
            },
{
    let mut rows: Vec<ScanRow> = Vec::new();
    let mut i: usize = 0;
    while i < results.len()
        invariant
            0 <= i <= results@.len(),
            rows@.len() == i,
            forall|j: int|
                0 <= j < i ==> {
                    &&& (#[trigger] rows@[j]).address@ == spec_ipv4(results@[j].0)
                    &&& rows@[j].board_version@ == results@[j].1.board_version@
                    &&& rows@[j].version@ == results@[j].1.version@
                    &&& rows@[j].alias@ == match spec_first_match(
                        config.inner.devices@,
                        spec_ipv4(results@[j].0),
                    ) {
                        Some(d) => match d.alias {
                            Some(a) => a@,
                            None => "None"@,
                        },
                        None => "None"@,
                    }
                },
        decreases results@.len() - i,
    {
        let address = ipv4_to_string(results[i].0);
        let alias = match config.get_device(address.as_str()) {
            Some(d) => match &d.alias {
                Some(a) => a.clone(),
                None => "None".to_owned(),
            },
            None => "None".to_owned(),
        };
        rows.push(
            ScanRow {
                address,
                alias,
                board_version: results[i].1.board_version.clone(),
                version: results[i].1.version.clone(),
            },
        );
        i += 1;
    }
    rows
}

proof fn lemma_first_match_push_keeps(s: Seq<Device>, x: Device, id: Seq<char>)
    requires
        spec_first_match(s, id) is Some,
    ensures
        spec_first_match(s.push(x), id) == spec_first_match(s, id),
    decreases s.len(),
{
    assert(s.push(x)[0] == s[0]);
    if s[0].spec_matches_ident(id) {
    } else {
        assert(s.push(x).drop_first() =~= s.drop_first().push(x));
        lemma_first_match_push_keeps(s.drop_first(), x, id);
    }
}

proof fn lemma_first_match_push_new(s: Seq<Device>, x: Device, id: Seq<char>)
    requires
        spec_first_match(s, id) is None,
        x.spec_matches_ident(id),
    ensures
        spec_first_match(s.push(x), id) == Some(x),
    decreases s.len(),
{
    if s.len() == 0 {
        assert(s.push(x)[0] == x);
    } else {
        assert(s.push(x)[0] == s[0]);
        assert(s.push(x).drop_first() =~= s.drop_first().push(x));
        lemma_first_match_push_new(s.drop_first(), x, id);
    }
}

/// Record the addresses a scan found into the device book: an address
/// the book does not know yet is appended, without an alias; known
/// devices are left exactly as they are. Afterwards every responding
/// address is in the book. Persistence runs only after all probes have
/// resolved; writing the book back to disk is the caller's part.
pub fn save_new_devices(config: &mut Config, results: &Vec<(u32, SystemInfo)>)
    ensures
        final(config).path == old(config).path,
        final(config).inner.devices@.len() >= old(config).inner.devices@.len(),
        forall|j: int|
            0 <= j < old(config).inner.devices@.len() ==> final(config).inner.devices@[j] == old(
                config,
            ).inner.devices@[j],
        forall|j: int|
            old(config).inner.devices@.len() <= j < final(config).inner.devices@.len() ==> (
            #[trigger] final(config).inner.devices@[j]).alias is None,
        forall|i: int|
            0 <= i < results@.len() ==> spec_first_match(
                final(config).inner.devices@,
                spec_ipv4(#[trigger] results@[i].0),
            ) is Some,
{
    let ghost orig = config.inner.devices@;
    let mut i: usize = 0;
    while i < results.len()
        invariant
            0 <= i <= results@.len(),
            config.path == old(config).path,
            config.inner.devices@.len() >= orig.len(),
            orig == old(config).inner.devices@,
            forall|j: int| 0 <= j < orig.len() ==> config.inner.devices@[j] == orig[j],
            forall|j: int|
                orig.len() <= j < config.inner.devices@.len() ==> (
                #[trigger] config.inner.devices@[j]).alias is None,
            forall|k: int|
                0 <= k < i ==> spec_first_match(
                    config.inner.devices@,
                    spec_ipv4(#[trigger] results@[k].0),
                ) is Some,
        decreases results@.len() - i,
    {
        let ghost before = config.inner.devices@;
        let address = ipv4_to_string(results[i].0);
        match config.get_device_index(address.as_str()) {
            Some(_) => {
                proof {
                    crate::config::lemma_first_match_index_agrees(
                        config.inner.devices@,
                        address@,
                    );
                }
            },
            None => {
                proof {
                    crate::config::lemma_first_match_index_agrees(
                        config.inner.devices@,
                        address@,
                    );
                }
                config.upsert_device(address.as_str(), None);
                proof {
                    let added = config.inner.devices@.last();
                    assert(config.inner.devices@ =~= before.push(added));
                    assert(added.spec_matches_ident(address@));
                    lemma_first_match_push_new(before, added, address@);
                    assert forall|k: int| 0 <= k < i implies spec_first_match(
                        config.inner.devices@,
                        spec_ipv4(#[trigger] results@[k].0),
                    ) is Some by {
                        lemma_first_match_push_keeps(before, added, spec_ipv4(results@[k].0));
                    }
                }
            },
        }
        i += 1;
    }
}

/// The dotted rendering of a 32-bit address: the four octets in
/// decimal, most significant first, joined by dots.
pub open spec fn spec_ipv4(a: u32) -> Seq<char> {
    spec_udigits((a as nat / 0x1000000) % 256) + seq!['.'] + spec_udigits(
        (a as nat / 0x10000) % 256,
    ) + seq!['.'] + spec_udigits((a as nat / 0x100) % 256) + seq!['.'] + spec_udigits(a as nat % 256)
}

/// Render an address dotted, as the device book and the scan table
/// show it.
pub fn ipv4_to_string(a: u32) -> (r: String)
    ensures
        r@ == spec_ipv4(a),
{
    proof {
        reveal_strlit(".");
    }
    let mut out = u64_to_string((a as u64 / 0x1000000) % 256);
    out.append(".");
    out.append(u64_to_string((a as u64 / 0x10000) % 256).as_str());
    out.append(".");
    out.append(u64_to_string((a as u64 / 0x100) % 256).as_str());
    out.append(".");
    out.append(u64_to_string(a as u64 % 256).as_str());
    proof {
        assert(out@ =~= spec_ipv4(a));
    }
    out
}

} // verus!
