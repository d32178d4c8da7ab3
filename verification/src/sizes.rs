//! SI byte-size strings for the memory, swap and disk fields.

use vstd::prelude::*;
use vstd::string::StringExecFns;
use crate::numerals::decimal_of;

verus! {

/// The SI (decimal, 1000-based) human-readable rendering of a byte count:
/// a mantissa rounded to one fractional digit and a unit prefix drawn
/// from the count's magnitude, e.g. `1.5 MB`; a count below one thousand
/// is the plain count followed by ` B`.
pub uninterp spec fn si_size_of(bytes: u64) -> Seq<char>;

/// Relies on `bytesize::ByteSize` and its SI display: the rendering is a
/// function of the byte count alone, and a count below one thousand is
/// printed as the plain decimal count, a space, and `B`.
#[verifier::external_body]
fn si_size_string(bytes: u64) -> (r: String)
    ensures
        r@ == si_size_of(bytes),
        bytes < 1000 ==> r@ == decimal_of(bytes as nat) + " B"@,
{
    bytesize::ByteSize::b(bytes).display().si().to_string()
}

/// Renders a byte count as a human-readable SI size string.
pub fn format_size(bytes: u64) -> (r: String)
    ensures
        r@ == si_size_of(bytes),
        bytes < 1000 ==> r@ == decimal_of(bytes as nat) + " B"@,
{
    si_size_string(bytes)
}

/// Renders a used/total pair of byte counts, `/`-separated, as the memory,
/// swap and disk fields show them.
pub fn format_size_pair(used: u64, total: u64) -> (r: String)
    ensures
        r@ == si_size_of(used) + "/"@ + si_size_of(total),
        used < 1000 ==> r@ == decimal_of(used as nat) + " B"@ + "/"@ + si_size_of(total),
        total < 1000 ==> r@ == si_size_of(used) + "/"@ + decimal_of(total as nat) + " B"@,
{
    let mut s = si_size_string(used);
    s.append("/");
    let t = si_size_string(total);
    s.append(t.as_str());
    proof {
        if used < 1000 {
            assert(s@ =~= decimal_of(used as nat) + " B"@ + "/"@ + si_size_of(total));
        }
        if total < 1000 {
            assert(s@ =~= si_size_of(used) + "/"@ + decimal_of(total as nat) + " B"@);
        }
    }
    s
}

} // verus!
