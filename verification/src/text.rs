//! Searching text.
use vstd::prelude::*;

verus! {

/// Whether a text has another one in it.
pub open spec fn has_part(text: Seq<char>, part: Seq<char>) -> bool {
    exists|i: int| #[trigger] part_at(text, part, i)
}

/// Whether a text has another one in it at a position.
pub open spec fn part_at(text: Seq<char>, part: Seq<char>, i: int) -> bool {
    0 <= i && i + part.len() <= text.len() && text.subrange(i, i + part.len()) == part
}

/// The characters of a text.
pub fn characters(text: &str) -> (r: Vec<char>)
    ensures
        r@ == text@,
{
    let n = text.unicode_len();
    let mut out: Vec<char> = Vec::new();
    for i in 0..n
        invariant
            n == text@.len(),
            out@ == text@.take(i as int),
    {
        out.push(text.get_char(i));
        assert(out@ =~= text@.take(i + 1));
    }
    assert(text@.take(text@.len() as int) =~= text@);
    out
}

/// Whether a text has another one in it.
pub fn contains_text(text: &str, part: &str) -> (r: bool)
    ensures
        r == has_part(text@, part@),
{
    let t = characters(text);
    let p = characters(part);
    if p.len() > t.len() {
        return false;
    }
    let n = t.len();
    let last: usize = n - p.len();
    let mut i: usize = 0;
    while i <= last
        invariant
            t@ == text@,
            p@ == part@,
            p@.len() <= t@.len(),
            n == t@.len(),
            last == n - p@.len(),
            i <= last + 1,
            forall|k: int| 0 <= k < i ==> !#[trigger] part_at(text@, part@, k),
        decreases last + 1 - i,
    {
        let mut same = true;
        for j in 0..p.len()
            invariant
                t@ == text@,
                p@ == part@,
                n == t@.len(),
                last == n - p@.len(),
                i <= last,
                same ==> forall|k: int| 0 <= k < j ==> t@[i + k] == p@[k],
                !same ==> exists|k: int| 0 <= k < p@.len() && t@[i + k] != #[trigger] p@[k],
        {
            if t[i + j] != p[j] {
                same = false;
                assert(t@[i + j] != p@[j as int]);
            }
        }
        if same {
            assert(text@.subrange(i as int, i + part@.len()) =~= part@);
            assert(part_at(text@, part@, i as int));
            return true;
        }
        proof {
            let k = choose|k: int| 0 <= k < p@.len() && t@[i + k] != #[trigger] p@[k];
            if part_at(text@, part@, i as int) {
                assert(text@.subrange(i as int, i + part@.len())[k] == part@[k]);
            }
        }
        if i == last {
            assert forall|k: int| !#[trigger] part_at(text@, part@, k) by {}
            return false;
        }
        i = i + 1;
    }
    false
}

} // verus!
