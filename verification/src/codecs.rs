//! Codec capability: the codec table offered to callers, and the decision
//! whether a machine's CPU supports HEVC hardware encoding.

use vstd::prelude::*;

verus! {

/// The generation digit, if any, that the fixed pattern
/// `Intel.*Core.*i\d+-(\d)` captures from a CPU brand string.
pub uninterp spec fn intel_gen_digit(cpu: Seq<char>) -> Option<char>;

/// Relies on regex's `Regex::captures` with the fixed pattern
/// `Intel.*Core.*i\d+-(\d)`: the first character of capture group one,
/// which depends on the text alone.
#[verifier::external_body]
fn intel_generation_digit(cpu: &str) -> (r: Option<char>)
    ensures
        r == intel_gen_digit(cpu@),
{
    let re = regex::Regex::new(r"Intel.*Core.*i\d+-(\d)").unwrap();
    re.captures(cpu).and_then(|caps| caps.get(1)).and_then(|m| m.as_str().chars().next())
}

/// Whether a machine with the given CPU brand string supports HEVC hardware
/// encoding: every Apple-silicon CPU does, and an Intel Core CPU does from
/// model generation six on (a generation written with a digit that the
/// decimal parser accepts).
pub open spec fn spec_supports_hevc(cpu: Seq<char>) -> bool {
    "Apple "@.is_prefix_of(cpu) || (intel_gen_digit(cpu) matches Some(d) && '6' <= d && d <= '9')
}

/// Whether `p` is a prefix of `s`.
fn str_has_prefix(s: &str, p: &str) -> (b: bool)
    ensures
        b == p@.is_prefix_of(s@),
{
    let np = p.unicode_len();
    let ns = s.unicode_len();
    if np > ns {
        return false;
    }
    let mut i: usize = 0;
    while i < np
        invariant
            i <= np,
            np == p@.len(),
            ns == s@.len(),
            np <= ns,
            forall|j: int| 0 <= j < i ==> p@[j] == s@[j],
        decreases np - i,
    {
        if p.get_char(i) != s.get_char(i) {
            proof {
                assert(s@.subrange(0, np as int)[i as int] == s@[i as int]);
            }
            return false;
        }
        i = i + 1;
    }
    proof {
        assert(p@ =~= s@.subrange(0, np as int));
    }
    true
}

/// Decides HEVC hardware-encoding support from a CPU brand string.
pub fn supports_hevc_hardware_encoding(cpu_model: &str) -> (r: bool)
    ensures
        r == spec_supports_hevc(cpu_model@),
{
    if str_has_prefix(cpu_model, "Apple ") {
        return true;
    }
    match intel_generation_digit(cpu_model) {
        Some(d) => d >= '6' && d <= '9',
        None => false,
    }
}

/// The codec table: each entry pairs a codec name with the identifier the
/// recorder expects.  The HEVC entry is present exactly when the machine's
/// hardware supports HEVC encoding.
pub fn video_codecs(hevc_supported: bool) -> (r: Vec<(&'static str, &'static str)>)
    ensures
        r@.len() == (if hevc_supported { 4int } else { 3int }),
        r@[0].0@ == "h264"@ && r@[0].1@ == "avc1"@,
        r@[1].0@ == "proRes422"@ && r@[1].1@ == "apcn"@,
        r@[2].0@ == "proRes4444"@ && r@[2].1@ == "ap4h"@,
        hevc_supported ==> r@[3].0@ == "hevc"@ && r@[3].1@ == "hvc1"@,
{
    let mut codecs: Vec<(&'static str, &'static str)> = Vec::new();
    codecs.push(("h264", "avc1"));
    codecs.push(("proRes422", "apcn"));
    codecs.push(("proRes4444", "ap4h"));
    if hevc_supported {
        codecs.push(("hevc", "hvc1"));
    }
    codecs
}

} // verus!
