//! Searching and splitting byte strings, as `str::split` does.
use vstd::prelude::*;

verus! {

/// Whether `pat` occurs in `s` at index `i`.
pub open spec fn occurs_at(s: Seq<u8>, pat: Seq<u8>, i: int) -> bool {
    0 <= i && i + pat.len() <= s.len() && s.subrange(i, i + pat.len()) == pat
}

/// The index of the first occurrence of `pat` in `s`.
pub open spec fn find(s: Seq<u8>, pat: Seq<u8>) -> Option<int>
    decreases s.len(),
{
    if s.len() < pat.len() {
        None
    } else if s.subrange(0, pat.len() as int) == pat {
        Some(0)
    } else if s.len() == 0 {
        None
    } else {
        match find(s.drop_first(), pat) {
            Some(i) => Some(i + 1),
            None => None,
        }
    }
}

/// `find` gives the first occurrence, or none when there is none.
pub proof fn lemma_find(s: Seq<u8>, pat: Seq<u8>)
    ensures
        match find(s, pat) {
            Some(i) => occurs_at(s, pat, i) && forall|j: int| 0 <= j < i ==> !occurs_at(s, pat, j),
            None => forall|j: int| !occurs_at(s, pat, j),
        },
    decreases s.len(),
{
    if s.len() < pat.len() {
    } else if s.subrange(0, pat.len() as int) == pat {
    } else if s.len() == 0 {
        assert(s.subrange(0, pat.len() as int) =~= pat);
    } else {
        let t = s.drop_first();
        lemma_find(t, pat);
        assert forall|j: int| 0 <= j && j + 1 + pat.len() <= s.len() implies #[trigger] occurs_at(
            s,
            pat,
            j + 1,
        ) == occurs_at(t, pat, j) by {
            assert(s.subrange(j + 1, j + 1 + pat.len()) =~= t.subrange(j, j + pat.len()));
        }
        match find(t, pat) {
            Some(i) => {
                assert forall|j: int| 0 <= j < i + 1 implies !occurs_at(s, pat, j) by {
                    if j > 0 {
                        assert(occurs_at(s, pat, (j - 1) + 1) == occurs_at(t, pat, j - 1));
                    }
                }
                assert(occurs_at(s, pat, i + 1) == occurs_at(t, pat, i));
            },
            None => {
                assert forall|j: int| !occurs_at(s, pat, j) by {
                    if j > 0 && j + pat.len() <= s.len() {
                        assert(occurs_at(s, pat, (j - 1) + 1) == occurs_at(t, pat, j - 1));
                    }
                }
            },
        }
    }
}

/// The first occurrence is the only one before which `pat` does not occur.
pub proof fn lemma_find_unique(s: Seq<u8>, pat: Seq<u8>, i: int)
    requires
        occurs_at(s, pat, i),
        forall|j: int| 0 <= j < i ==> !occurs_at(s, pat, j),
    ensures
        find(s, pat) == Some(i),
{
    lemma_find(s, pat);
    match find(s, pat) {
        Some(k) => {
            if k < i {
            } else if k > i {
            }
        },
        None => {
            assert(occurs_at(s, pat, i));
        },
    }
}

/// The pieces of `s` between the occurrences of `sep`, as `str::split` gives them.
pub open spec fn split(s: Seq<u8>, sep: Seq<u8>) -> Seq<Seq<u8>>
    decreases s.len(),
{
    if sep.len() == 0 {
        seq![s]
    } else {
        match find(s, sep) {
            None => seq![s],
            Some(i) => {
                proof {
                    lemma_find(s, sep);
                }
                seq![s.take(i)] + split(s.skip(i + sep.len()), sep)
            },
        }
    }
}

/// The first occurrence of `pat` in `bytes` at or after `start`.
pub fn find_from(bytes: &[u8], start: usize, pat: &[u8]) -> (found: Option<usize>)
    requires
        start <= bytes@.len(),
        pat@.len() > 0,
    ensures
        match find(bytes@.skip(start as int), pat@) {
            Some(i) => found == Some((i + start) as usize),
            None => found is None,
        },
{
    let ghost s = bytes@.skip(start as int);
    let mut i = start;
    while i < bytes.len() && pat.len() <= bytes.len() - i
        invariant
            start <= i <= bytes@.len(),
            s == bytes@.skip(start as int),
            forall|j: int| 0 <= j < i - start ==> !occurs_at(s, pat@, j),
        decreases bytes@.len() - i,
    {
        let mut k: usize = 0;
        let mut same = true;
        let n = bytes.len();
        while k < pat.len()
            invariant
                n == bytes@.len(),
                i + pat@.len() <= bytes@.len(),
                k <= pat@.len(),
                same == (forall|m: int| 0 <= m < k ==> bytes@[i + m] == pat@[m]),
            decreases pat@.len() - k,
        {
            assert(i + k < bytes@.len());
            if bytes[i + k] != pat[k] {
                same = false;
            }
            k = k + 1;
        }
        proof {
            let w = s.subrange(i - start, i - start + pat@.len());
            assert forall|m: int| 0 <= m < pat@.len() implies w[m] == bytes@[i + m] by {}
            if same {
                assert(w =~= pat@);
            } else {
                let m = choose|m: int| 0 <= m < pat@.len() && bytes@[i + m] != pat@[m];
                assert(w[m] != pat@[m]);
            }
        }
        if same {
            proof {
                lemma_find_unique(s, pat@, i - start);
            }
            return Some(i);
        }
        i = i + 1;
    }
    proof {
        lemma_find(s, pat@);
        match find(s, pat@) {
            Some(k) => {
                assert(occurs_at(s, pat@, k));
                assert(s.len() == bytes@.len() - start);
                assert(i - start + pat@.len() > s.len());
                if k >= i - start {
                    assert(k + pat@.len() > s.len());
                }
            },
            None => {},
        }
    }
    None
}

/// Whether `a` and `b` hold the same bytes.
pub fn same_bytes(a: &[u8], b: &[u8]) -> (same: bool)
    ensures
        same == (a@ == b@),
{
    if a.len() != b.len() {
        return false;
    }
    let mut k: usize = 0;
    while k < a.len()
        invariant
            a@.len() == b@.len(),
            k <= a@.len(),
            forall|m: int| 0 <= m < k ==> a@[m] == b@[m],
        decreases a@.len() - k,
    {
        if a[k] != b[k] {
            return false;
        }
        k = k + 1;
    }
    assert(a@ =~= b@);
    true
}

} // verus!
