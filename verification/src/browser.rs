//! Choosing a Chromium executable and a DevTools page to attach to.
use vstd::prelude::*;
use crate::text::{chars_of, concat2, contains_chars, contains_seq, owned, str_eq};

verus! {

/// The browsers looked for on `PATH`, most preferred first.
pub open spec fn browser_programs() -> Seq<Seq<char>> {
    seq!["microsoft-edge"@, "google-chrome"@, "chromium"@, "chromium-browser"@]
}

/// The `PATH` entries of a `PATH` value (split at `:`), in order.
pub open spec fn path_entries(path: Seq<char>) -> Seq<Seq<char>>
    decreases path.len(),
{
    if path.len() == 0 {
        seq![Seq::empty()]
    } else {
        let rest = path_entries(path.drop_last());
        if path.last() == ':' {
            rest.push(Seq::empty())
        } else {
            rest.update(rest.len() - 1, rest.last().push(path.last()))
        }
    }
}

proof fn lemma_path_entries_nonempty(path: Seq<char>)
    ensures
        path_entries(path).len() >= 1,
    decreases path.len(),
{
    if path.len() > 0 {
        lemma_path_entries_nonempty(path.drop_last());
    }
}

/// The candidate executables: each program in every `PATH` entry, programs
/// in order of preference.
pub open spec fn candidates_of(path: Seq<char>) -> Seq<Seq<char>> {
    let entries = path_entries(path);
    let n = entries.len();
    Seq::new(
        4 * n,
        |k: int| entries[k % n as int] + "/"@ + browser_programs()[k / n as int],
    )
}

fn split_path(path: &str) -> (r: Vec<Vec<char>>)
    ensures
        r@.len() == path_entries(path@).len(),
        forall|i: int| 0 <= i < r@.len() ==> #[trigger] r@[i]@ == path_entries(path@)[i],
{
    let chars = chars_of(path);
    let mut out: Vec<Vec<char>> = Vec::new();
    out.push(Vec::new());
    let mut i: usize = 0;
    while i < chars.len()
        invariant
            i <= chars@.len(),
            out@.len() == path_entries(chars@.subrange(0, i as int)).len(),
            out@.len() >= 1,
            forall|k: int|
                0 <= k < out@.len() ==> #[trigger] out@[k]@ == path_entries(
                    chars@.subrange(0, i as int),
                )[k],
        decreases chars@.len() - i,
    {
        let ghost prefix = chars@.subrange(0, i + 1);
        assert(prefix.drop_last() =~= chars@.subrange(0, i as int));
        proof {
            lemma_path_entries_nonempty(chars@.subrange(0, i as int));
        }
        if chars[i] == ':' {
            out.push(Vec::new());
        } else {
            let last = out.len() - 1;
            let mut entry = out.pop().unwrap();
            entry.push(chars[i]);
            out.push(entry);
        }
        i += 1;
    }
    assert(chars@.subrange(0, chars@.len() as int) =~= chars@);
    out
}

/// Every place a supported browser may be installed under `path` (a `PATH`
/// value): each program in each `PATH` entry, the programs in order of
/// preference.
pub fn candidate_paths(path: &str) -> (r: Vec<String>)
    ensures
        r@.len() == candidates_of(path@).len(),
        forall|k: int| 0 <= k < r@.len() ==> #[trigger] r@[k]@ == candidates_of(path@)[k],
{
    let entries = split_path(path);
    proof {
        lemma_path_entries_nonempty(path@);
    }
    let n = entries.len();
    let ghost all = candidates_of(path@);
    let programs = ["microsoft-edge", "google-chrome", "chromium", "chromium-browser"];
    let mut out: Vec<String> = Vec::new();
    let mut p: usize = 0;
    while p < 4
        invariant
            n == entries@.len(),
            n == path_entries(path@).len(),
            n >= 1,
            all == candidates_of(path@),
            p <= 4,
            out@.len() == p * n,
            forall|i: int| 0 <= i < n ==> #[trigger] entries@[i]@ == path_entries(path@)[i],
            forall|k: int| 0 <= k < out@.len() ==> #[trigger] out@[k]@ == all[k],
        decreases 4 - p,
    {
        let program = if p == 0 {
            "microsoft-edge"
        } else if p == 1 {
            "google-chrome"
        } else if p == 2 {
            "chromium"
        } else {
            "chromium-browser"
        };
        assert(program@ == browser_programs()[p as int]);
        let mut e: usize = 0;
        while e < n
            invariant
                n == entries@.len(),
                n == path_entries(path@).len(),
                n >= 1,
                all == candidates_of(path@),
                p < 4,
                program@ == browser_programs()[p as int],
                e <= n,
                out@.len() == p * n + e,
                forall|i: int| 0 <= i < n ==> #[trigger] entries@[i]@ == path_entries(path@)[i],
                forall|k: int| 0 <= k < out@.len() ==> #[trigger] out@[k]@ == all[k],
            decreases n - e,
        {
            let mut s = crate::text::string_of(&entries[e]);
            s.append("/");
            s.append(program);
            proof {
                let k = p * n + e;
                assert(k / (n as int) == p) by (nonlinear_arith)
                    requires
                        k == p * n + e,
                        0 <= e < n,
                ;
                assert(k % (n as int) == e) by (nonlinear_arith)
                    requires
                        k == p * n + e,
                        0 <= e < n,
                ;
                assert(s@ == all[k]);
            }
            out.push(s);
            e += 1;
        }
        p += 1;
        assert(out@.len() == p * n) by (nonlinear_arith)
            requires
                out@.len() == (p - 1) * n + n,
        ;
    }
    out
}

/// The first candidate that exists.
pub open spec fn first_existing(candidates: Seq<String>, present: Seq<bool>) -> Option<String>
    decreases candidates.len(),
{
    if candidates.len() == 0 {
        None
    } else if present.len() > 0 && present[0] {
        Some(candidates[0])
    } else {
        first_existing(
            candidates.drop_first(),
            if present.len() > 0 {
                present.drop_first()
            } else {
                present
            },
        )
    }
}

/// The first candidate whose file exists (`present[i]` tells whether
/// `candidates[i]` is a file; a missing flag counts as absent).
pub fn first_existing_executable(candidates: Vec<String>, present: &Vec<bool>) -> (r: Option<
    String,
>)
    ensures
        r == first_existing(candidates@, present@),
{
    let mut i: usize = 0;
    assert(candidates@.subrange(0, candidates@.len() as int) =~= candidates@);
    assert(present@.subrange(0, present@.len() as int) =~= present@);
    while i < candidates.len()
        invariant
            i <= candidates@.len(),
            first_existing(candidates@, present@) == first_existing(
                candidates@.subrange(i as int, candidates@.len() as int),
                if i <= present@.len() {
                    present@.subrange(i as int, present@.len() as int)
                } else {
                    Seq::<bool>::empty()
                },
            ),
        decreases candidates@.len() - i,
    {
        let ghost c = candidates@.subrange(i as int, candidates@.len() as int);
        let ghost q = if i <= present@.len() {
            present@.subrange(i as int, present@.len() as int)
        } else {
            Seq::<bool>::empty()
        };
        assert(c.drop_first() =~= candidates@.subrange(i + 1, candidates@.len() as int));
        if i < present.len() && present[i] {
            assert(q[0] == present@[i as int]);
            return Some(candidates[i].clone());
        }
        proof {
            let q2 = if q.len() > 0 {
                q.drop_first()
            } else {
                q
            };
            assert(first_existing(c, q) == first_existing(c.drop_first(), q2));
            if i < present@.len() {
                assert(q.drop_first() =~= present@.subrange(i + 1, present@.len() as int));
            } else {
                assert(q2 =~= Seq::<bool>::empty());
            }
        }
        i += 1;
    }
    None
}

/// A usable Chromium-family executable under `path` (a `PATH` value), where
/// `present` tells which of `candidate_paths(path)` are files.
pub fn find_chromium_executable(path: &str, present: &Vec<bool>) -> (r: Option<String>)
    ensures
        match first_existing_executable_view(candidates_of(path@), present@) {
            Some(c) => r matches Some(s) && s@ == c,
            None => r is None,
        },
{
    let candidates = candidate_paths(path);
    let ghost views = candidates@.map_values(|s: String| s@);
    assert(views =~= candidates_of(path@));
    let r = first_existing_executable(candidates, present);
    proof {
        lemma_first_existing_view(candidates@, present@);
    }
    r
}

/// `first_existing` over the candidates' text.
pub open spec fn first_existing_executable_view(candidates: Seq<Seq<char>>, present: Seq<bool>) -> Option<
    Seq<char>,
>
    decreases candidates.len(),
{
    if candidates.len() == 0 {
        None
    } else if present.len() > 0 && present[0] {
        Some(candidates[0])
    } else {
        first_existing_executable_view(
            candidates.drop_first(),
            if present.len() > 0 {
                present.drop_first()
            } else {
                present
            },
        )
    }
}

proof fn lemma_first_existing_view(candidates: Seq<String>, present: Seq<bool>)
    ensures
        match first_existing(candidates, present) {
            Some(c) => first_existing_executable_view(
                candidates.map_values(|s: String| s@),
                present,
            ) == Some(c@),
            None => first_existing_executable_view(
                candidates.map_values(|s: String| s@),
                present,
            ) is None,
        },
    decreases candidates.len(),
{
    if candidates.len() > 0 {
        let rest = candidates.drop_first();
        assert(candidates.map_values(|s: String| s@).drop_first() =~= rest.map_values(
            |s: String| s@,
        ));
        lemma_first_existing_view(
            rest,
            if present.len() > 0 {
                present.drop_first()
            } else {
                present
            },
        );
    }
}

/// A DevTools target: its type, the page it shows, and its socket.
#[derive(Debug)]
pub struct DebugTarget {
    pub target_type: String,
    pub url: String,
    pub websocket_url: Option<String>,
}

/// Whether a target is a page XTUI can attach to.
pub open spec fn attachable(t: DebugTarget) -> bool {
    t.target_type@ == "page"@ && t.websocket_url is Some
}

/// Which of the attachable pages to use: the first that shows x.com, else
/// the first; `None` when there is none.
pub fn select_page(pages: &Vec<DebugTarget>) -> (r: Option<usize>)
    ensures
        match r {
            Some(i) => i < pages@.len() && ((contains_seq(pages@[i as int].url@, "x.com"@)
                && forall|j: int| 0 <= j < i ==> !contains_seq(pages@[j].url@, "x.com"@)) || (i
                == 0 && forall|j: int|
                0 <= j < pages@.len() ==> !contains_seq(pages@[j].url@, "x.com"@))),
            None => pages@.len() == 0,
        },
{
    let needle = chars_of("x.com");
    let mut i: usize = 0;
    while i < pages.len()
        invariant
            i <= pages@.len(),
            needle@ == "x.com"@,
            forall|j: int| 0 <= j < i ==> !contains_seq(pages@[j].url@, "x.com"@),
        decreases pages@.len() - i,
    {
        if contains_chars(&chars_of(pages[i].url.as_str()), &needle) {
            return Some(i);
        }
        i += 1;
    }
    if pages.len() > 0 {
        Some(0)
    } else {
        None
    }
}

/// Keep the targets XTUI can attach to, in order.
pub fn attachable_pages(targets: Vec<DebugTarget>) -> (r: Vec<DebugTarget>)
    ensures
        r@ == targets@.filter(|t: DebugTarget| attachable(t)),
{
    let mut rest = targets;
    let ghost orig = rest@;
    let n = rest.len();
    let mut out: Vec<DebugTarget> = Vec::new();
    let mut i: usize = 0;
    while rest.len() > 0
        invariant
            n == orig.len(),
            i + rest@.len() == n,
            rest@ == orig.subrange(i as int, n as int),
            out@ == orig.subrange(0, i as int).filter(|t: DebugTarget| attachable(t)),
        decreases rest@.len(),
    {
        let t = rest.remove(0);
        proof {
            reveal(Seq::filter);
            assert(orig.subrange(0, i + 1).drop_last() =~= orig.subrange(0, i as int));
            assert(orig.subrange(0, i + 1).last() == t);
        }
        if str_eq(t.target_type.as_str(), "page") && t.websocket_url.is_some() {
            out.push(t);
        }
        i += 1;
        assert(rest@ =~= orig.subrange(i as int, n as int));
    }
    assert(orig.subrange(0, n as int) =~= orig);
    out
}

} // verus!
