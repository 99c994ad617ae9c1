//! Whether decorative motion runs: the environment can freeze it.
use vstd::prelude::*;
use crate::text::{ascii_lower_seq, chars_of, lower_ascii_chars, seq_eq, trim, trim_chars};

verus! {

/// A setting's value as it is compared: trimmed and ASCII-lowercased.
pub open spec fn normalized(value: Seq<char>) -> Seq<char> {
    ascii_lower_seq(trim(value))
}

fn normalize(value: &str) -> (r: Vec<char>)
    ensures
        r@ == normalized(value@),
{
    lower_ascii_chars(&trim_chars(&chars_of(value)))
}

fn is(v: &Vec<char>, word: &str) -> (r: bool)
    ensures
        r == (v@ == word@),
{
    seq_eq(v, &chars_of(word))
}

/// Whether a setting reads as "yes": 1, on, true or yes.
pub open spec fn is_truthy(value: Seq<char>) -> bool {
    let v = normalized(value);
    v == "1"@ || v == "on"@ || v == "true"@ || v == "yes"@
}

/// Whether a setting reads as "yes" (trimmed, in any ASCII case).
pub fn truthy(value: &str) -> (r: bool)
    ensures
        r == is_truthy(value@),
{
    let v = normalize(value);
    is(&v, "1") || is(&v, "on") || is(&v, "true") || is(&v, "yes")
}

/// Whether a motion setting switches motion off: 0, off, false, reduced or
/// none.
pub open spec fn switches_off(value: Seq<char>) -> bool {
    let v = normalized(value);
    v == "0"@ || v == "off"@ || v == "false"@ || v == "reduced"@ || v == "none"@
}

/// Whether decorative motion runs, given the `XTUI_REDUCED_MOTION` and
/// `XTUI_MOTION` settings (when set): a truthy reduced-motion request or a
/// motion setting that switches it off freezes it.
pub fn motion_enabled(reduced_motion: Option<&str>, motion: Option<&str>) -> (r: bool)
    ensures
        r == !((reduced_motion matches Some(v) && is_truthy(v@)) || (motion matches Some(m)
            && switches_off(m@))),
{
    let reduced = match reduced_motion {
        Some(v) => truthy(v),
        None => false,
    };
    let disabled = match motion {
        Some(m) => {
            let v = normalize(m);
            is(&v, "0") || is(&v, "off") || is(&v, "false") || is(&v, "reduced") || is(&v, "none")
        },
        None => false,
    };
    !reduced && !disabled
}

} // verus!
