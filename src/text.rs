//! How each fact of the report is written as text, and the placeholder
//! rules for facts that could not be found.

use vstd::prelude::*;
use crate::decimal::{decimal, decimal_text};

verus! {

/// Bytes in a megabyte, as memory sizes are reported.
pub const MEGABYTE: u128 = 1048576;

/// Bytes in a gigabyte, as storage sizes are reported.
pub const GIGABYTE: u128 = 1073741824;

/// The placeholder for a fact that could not be determined.
pub open spec fn unknown_text() -> Seq<char> {
    "Unknown"@
}

/// The text of an optional value.
pub open spec fn opt_text(v: Option<String>) -> Option<Seq<char>> {
    match v {
        Some(s) => Some(s@),
        None => None,
    }
}

/// A value counts as present when it is there and not empty.
pub open spec fn present(v: Option<Seq<char>>) -> bool {
    v is Some && v->0.len() > 0
}

/// The value itself when present, else the placeholder.
pub open spec fn known_text(v: Option<Seq<char>>) -> Seq<char> {
    if present(v) {
        v->0
    } else {
        unknown_text()
    }
}

/// What follows the last `/` of `s` (all of `s` when it holds none).
pub open spec fn last_segment(s: Seq<char>) -> Seq<char>
    decreases s.len(),
{
    if s.len() == 0 {
        s
    } else if s.last() == '/' {
        Seq::empty()
    } else {
        last_segment(s.drop_last()).push(s.last())
    }
}

/// The shell's name from the shell path: the path's last segment, or the
/// placeholder when the path is absent or that segment is empty.
pub open spec fn shell_text(path: Option<Seq<char>>) -> Seq<char> {
    match path {
        Some(p) => known_text(Some(last_segment(p))),
        None => unknown_text(),
    }
}

/// The desktop session: the first source when present, else the second,
/// else the placeholder.
pub open spec fn window_manager_text(first: Option<Seq<char>>, second: Option<Seq<char>>) -> Seq<char> {
    if present(first) {
        first->0
    } else {
        known_text(second)
    }
}

/// `"{d}d {h}h {m}m"` for an uptime of `secs` seconds.
pub open spec fn uptime_text(secs: nat) -> Seq<char> {
    decimal_text(secs / 86400) + "d "@ + decimal_text((secs % 86400) / 3600) + "h "@
        + decimal_text((secs % 3600) / 60) + "m"@
}

/// `"{used}MB / {total}MB"`, both rounded down to whole megabytes.
pub open spec fn memory_text(used: nat, total: nat) -> Seq<char> {
    decimal_text(used / (MEGABYTE as nat)) + "MB / "@ + decimal_text(total / (MEGABYTE as nat)) + "MB"@
}

/// Space of one volume that is not available: capacity less available
/// space, and none where a volume reports more available than its capacity.
pub open spec fn volume_used(v: (u64, u64)) -> nat {
    if v.1 <= v.0 {
        (v.0 - v.1) as nat
    } else {
        0
    }
}

/// Sum of the capacities (first components) of the volumes.
pub open spec fn capacity_sum(vols: Seq<(u64, u64)>) -> nat
    decreases vols.len(),
{
    if vols.len() == 0 {
        0
    } else {
        capacity_sum(vols.drop_last()) + vols.last().0 as nat
    }
}

/// Sum of the used space of the volumes.
pub open spec fn used_sum(vols: Seq<(u64, u64)>) -> nat
    decreases vols.len(),
{
    if vols.len() == 0 {
        0
    } else {
        used_sum(vols.drop_last()) + volume_used(vols.last())
    }
}

/// `"{used}GB / {total}GB"` over all volumes, each given as
/// (capacity, available space) in bytes, rounded down to whole gigabytes.
pub open spec fn storage_text(vols: Seq<(u64, u64)>) -> Seq<char> {
    decimal_text(used_sum(vols) / (GIGABYTE as nat)) + "GB / "@
        + decimal_text(capacity_sum(vols) / (GIGABYTE as nat)) + "GB"@
}

/// `"{brand} ({cores} cores)"`.
pub open spec fn cpu_text(brand: Seq<char>, cores: nat) -> Seq<char> {
    brand + " ("@ + decimal_text(cores) + " cores)"@
}

/// OS version and kernel version joined by a space, each replaced by the
/// placeholder when absent.
pub open spec fn os_text(long: Option<Seq<char>>, kernel: Option<Seq<char>>) -> Seq<char> {
    known_text(long) + " "@ + known_text(kernel)
}

/// `s` without the whitespace at its start and end, as `str::trim` gives it.
pub uninterp spec fn trimmed(s: Seq<char>) -> Seq<char>;

/// Relies on `str::trim`: the result depends on the characters of `s` alone.
#[verifier::external_body]
fn trim_text(s: &str) -> (r: String)
    ensures
        r@ == trimmed(s@),
{
    s.trim().to_string()
}

/// The placeholder is not empty.
pub proof fn lemma_unknown_nonempty()
    ensures
        unknown_text().len() == 7,
{
    reveal_strlit("Unknown");
}

/// The placeholder, as a `String`.
pub fn unknown() -> (r: String)
    ensures
        r@ == unknown_text(),
{
    String::from_str("Unknown")
}

/// The value when present, else the placeholder.
pub fn known_or_unknown(v: &Option<String>) -> (r: String)
    ensures
        r@ == known_text(opt_text(*v)),
{
    match v {
        Some(s) => {
            if s.as_str().unicode_len() > 0 {
                s.clone()
            } else {
                unknown()
            }
        },
        None => unknown(),
    }
}

proof fn lemma_last_segment(s: Seq<char>, i: int)
    requires
        0 <= i <= s.len(),
        forall|k: int| i <= k < s.len() ==> s[k] != '/',
        i == 0 || s[i - 1] == '/',
    ensures
        last_segment(s) == s.subrange(i, s.len() as int),
    decreases s.len(),
{
    if s.len() == i {
        assert(s.subrange(i, i) =~= Seq::<char>::empty());
        if s.len() == 0 {
            assert(s =~= Seq::<char>::empty());
        }
    } else {
        lemma_last_segment(s.drop_last(), i);
        assert(s.subrange(i, s.len() as int) =~= s.drop_last().subrange(i, s.len() - 1).push(
            s.last(),
        ));
    }
}

/// The name of the shell, from the value of the shell path variable.
pub fn shell_name(path: &Option<String>) -> (r: String)
    ensures
        r@ == shell_text(opt_text(*path)),
{
    match path {
        Some(p) => {
            let s = p.as_str();
            let n = s.unicode_len();
            let mut i: usize = n;
            while i > 0
                invariant
                    i <= n,
                    n == s@.len(),
                    forall|k: int| i <= k < n ==> s@[k] != '/',
                ensures
                    i <= n,
                    forall|k: int| i <= k < n ==> s@[k] != '/',
                    i == 0 || s@[i - 1] == '/',
                decreases i,
            {
                if s.get_char(i - 1) == '/' {
                    break;
                }
                i = i - 1;
            }
            proof {
                lemma_last_segment(s@, i as int);
            }
            let seg = String::from_str(s.substring_char(i, n));
            known_or_unknown(&Some(seg))
        },
        None => unknown(),
    }
}

/// The desktop session, from its first source variable, falling back to the
/// second.
pub fn window_manager(first: &Option<String>, second: &Option<String>) -> (r: String)
    ensures
        r@ == window_manager_text(opt_text(*first), opt_text(*second)),
{
    match first {
        Some(s) => {
            if s.as_str().unicode_len() > 0 {
                return s.clone();
            }
        },
        None => {},
    }
    known_or_unknown(second)
}

/// Days, hours and minutes of an uptime given in seconds.
pub fn format_uptime(secs: u64) -> (r: String)
    ensures
        r@ == uptime_text(secs as nat),
{
    let s = secs as u128;
    let mut r = decimal(s / 86400);
    r.append("d ");
    let h = decimal((s % 86400) / 3600);
    r.append(h.as_str());
    r.append("h ");
    let m = decimal((s % 3600) / 60);
    r.append(m.as_str());
    r.append("m");
    r
}

/// Used and total memory, given in bytes, in whole megabytes.
pub fn format_memory(used: u64, total: u64) -> (r: String)
    ensures
        r@ == memory_text(used as nat, total as nat),
{
    let mut r = decimal(used as u128 / MEGABYTE);
    r.append("MB / ");
    let t = decimal(total as u128 / MEGABYTE);
    r.append(t.as_str());
    r.append("MB");
    r
}

/// Used and total storage over all volumes, each given as (capacity,
/// available space) in bytes, in whole gigabytes.
pub fn format_storage(vols: &Vec<(u64, u64)>) -> (r: String)
    ensures
        r@ == storage_text(vols@),
{
    let mut total: u128 = 0;
    let mut used: u128 = 0;
    let mut i: usize = 0;
    while i < vols.len()
        invariant
            i <= vols@.len(),
            total == capacity_sum(vols@.subrange(0, i as int)),
            used == used_sum(vols@.subrange(0, i as int)),
            total <= i * 0xFFFF_FFFF_FFFF_FFFFu128,
            used <= i * 0xFFFF_FFFF_FFFF_FFFFu128,
        decreases vols@.len() - i,
    {
        let (cap, avail) = vols[i];
        assert(vols@.subrange(0, i + 1).drop_last() =~= vols@.subrange(0, i as int));
        total = total + cap as u128;
        if avail <= cap {
            used = used + (cap - avail) as u128;
        }
        i = i + 1;
    }
    assert(vols@.subrange(0, i as int) =~= vols@);
    let mut r = decimal(used / GIGABYTE);
    r.append("GB / ");
    let t = decimal(total / GIGABYTE);
    r.append(t.as_str());
    r.append("GB");
    r
}

/// A processor's brand and its count of logical cores.
pub fn format_cpu(brand: &str, cores: usize) -> (r: String)
    ensures
        r@ == cpu_text(brand@, cores as nat),
{
    let mut r = String::from_str(brand);
    r.append(" (");
    let c = decimal(cores as u128);
    r.append(c.as_str());
    r.append(" cores)");
    r
}

/// The processor line from the brands of all logical cores: the first brand,
/// trimmed, with the count of cores; the placeholder when there are none.
pub fn cpu_summary(brands: &Vec<String>) -> (r: String)
    ensures
        brands@.len() == 0 ==> r@ == unknown_text(),
        brands@.len() > 0 ==> r@ == cpu_text(trimmed(brands@[0]@), brands@.len()),
{
    if brands.len() == 0 {
        unknown()
    } else {
        let t = trim_text(brands[0].as_str());
        format_cpu(t.as_str(), brands.len())
    }
}

/// OS version and kernel version, joined by a space.
pub fn format_os(long: &Option<String>, kernel: &Option<String>) -> (r: String)
    ensures
        r@ == os_text(opt_text(*long), opt_text(*kernel)),
{
    let mut r = known_or_unknown(long);
    r.append(" ");
    let k = known_or_unknown(kernel);
    r.append(k.as_str());
    r
}

} // verus!
