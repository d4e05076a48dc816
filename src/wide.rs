use vstd::prelude::*;

use crate::error::Error;

verus! {

/// No unit of `s` is the nul terminator.
pub open spec fn nul_free(s: Seq<u16>) -> bool {
    forall|i: int| 0 <= i < s.len() ==> s[i] != 0u16
}

/// What a reader of a nul-terminated wide string sees in `s`: the units before the first nul,
/// or all of `s` where it holds none.
pub open spec fn until_nul(s: Seq<u16>) -> Seq<u16>
    decreases s.len(),
{
    if s.len() == 0 {
        s
    } else if s[0] == 0u16 {
        Seq::empty()
    } else {
        seq![s[0]] + until_nul(s.drop_first())
    }
}

/// A nul-terminated wide string that carries `s`.
pub open spec fn c_wide(s: Seq<u16>) -> Seq<u16> {
    s.push(0u16)
}

/// The units of a list of names, each followed by a nul.
pub open spec fn nul_separated(items: Seq<Seq<u16>>) -> Seq<u16>
    decreases items.len(),
{
    if items.len() == 0 {
        Seq::empty()
    } else {
        nul_separated(items.drop_last()) + c_wide(items.last())
    }
}

/// A list of names as the control authority reads it: each name followed by a nul, and one
/// more nul after the last.
pub open spec fn double_nul_list(items: Seq<Seq<u16>>) -> Seq<u16> {
    nul_separated(items).push(0u16)
}

/// The UTF-16 encoding of `s`.
pub uninterp spec fn wide_of(s: Seq<char>) -> Seq<u16>;

/// The encodings of the strings of `items`, in order.
pub open spec fn wide_all(items: Seq<String>) -> Seq<Seq<u16>> {
    items.map_values(|s: String| wide_of(s@))
}

/// Relies on widestring::U16String::from_str, which encodes a `str` as UTF-16 (an empty
/// string gives no units).
#[verifier::external_body]
pub(crate) fn encode_wide(s: &str) -> (r: Vec<u16>)
    ensures
        r@ == wide_of(s@),
        s@.len() == 0 ==> r@.len() == 0,
{
    widestring::U16String::from_str(s).into_vec()
}

/// Where the first `i` units of `s` are free of nuls and a nul (or the end) follows, the
/// string that `s` carries is those `i` units.
pub proof fn lemma_until_nul_of_prefix(s: Seq<u16>, i: int)
    requires
        0 <= i <= s.len(),
        nul_free(s.subrange(0, i)),
        i < s.len() ==> s[i] == 0u16,
    ensures
        until_nul(s) == s.subrange(0, i),
    decreases i,
{
    if s.len() == 0 {
        assert(s.subrange(0, i) =~= s);
    } else if i == 0 {
        assert(s.subrange(0, i) =~= Seq::<u16>::empty());
    } else {
        let t = s.drop_first();
        assert(t.subrange(0, i - 1) =~= s.subrange(1, i));
        assert forall|k: int| 0 <= k < i - 1 implies #[trigger] t.subrange(0, i - 1)[k] != 0u16 by {
            assert(s.subrange(0, i)[k + 1] == s[k + 1]);
        }
        lemma_until_nul_of_prefix(t, i - 1);
        assert(s.subrange(0, i)[0] == s[0]);
        assert(s.subrange(0, i) =~= seq![s[0]] + t.subrange(0, i - 1));
    }
}

/// Copies the units of `s` that come before its first nul.
pub fn copy_until_nul(s: &[u16]) -> (r: Vec<u16>)
    ensures
        r@ == until_nul(s@),
        nul_free(r@),
{
    let mut r: Vec<u16> = Vec::new();
    let mut i: usize = 0;
    while i < s.len() && s[i] != 0
        invariant
            i <= s@.len(),
            r@ == s@.subrange(0, i as int),
            nul_free(r@),
        decreases s@.len() - i,
    {
        r.push(s[i]);
        i = i + 1;
        assert(r@ =~= s@.subrange(0, i as int));
    }
    proof {
        lemma_until_nul_of_prefix(s@, i as int);
    }
    r
}

/// Whether `s` holds the unit `u`.
pub fn contains_unit(s: &[u16], u: u16) -> (r: bool)
    ensures
        r == s@.contains(u),
        u == 0 ==> r == !nul_free(s@),
{
    let mut i: usize = 0;
    while i < s.len()
        invariant
            i <= s@.len(),
            forall|k: int| 0 <= k < i ==> s@[k] != u,
        decreases s@.len() - i,
    {
        if s[i] == u {
            assert(s@[i as int] == u);
            return true;
        }
        i = i + 1;
    }
    false
}

/// Whether `s` holds a nul unit.
pub fn has_nul(s: &[u16]) -> (r: bool)
    ensures
        r == !nul_free(s@),
{
    contains_unit(s, 0)
}

/// Encodes `s` as a nul-terminated wide string; a string that holds a nul of its own is
/// refused, since the control authority would read only the part before it.
pub fn to_c_wide(s: &str) -> (r: Result<Vec<u16>, Error>)
    ensures
        match r {
            Ok(v) => nul_free(wide_of(s@)) && v@ == c_wide(wide_of(s@)),
            Err(e) => !nul_free(wide_of(s@)) && e == Error::ArgumentHasNulByte,
        },
{
    let mut v = encode_wide(s);
    if has_nul(v.as_slice()) {
        return Err(Error::ArgumentHasNulByte);
    }
    v.push(0);
    Ok(v)
}

/// Encodes an optional string; `None` stays `None`, which the control authority reads as a
/// null pointer.
pub fn to_c_wide_opt(s: Option<&str>) -> (r: Result<Option<Vec<u16>>, Error>)
    ensures
        match s {
            None => r == Ok::<Option<Vec<u16>>, Error>(None),
            Some(t) => match r {
                Ok(Some(v)) => nul_free(wide_of(t@)) && v@ == c_wide(wide_of(t@)),
                Ok(None) => false,
                Err(e) => !nul_free(wide_of(t@)) && e == Error::ArgumentHasNulByte,
            },
        },
{
    match s {
        None => Ok(None),
        Some(t) => match to_c_wide(t) {
            Ok(v) => Ok(Some(v)),
            Err(e) => Err(e),
        },
    }
}

/// Encodes a list of names as one nul-separated, double-nul-terminated block. An empty list
/// gives `None` (a null pointer); a name that holds a nul of its own is refused.
pub fn to_double_nul_list(items: &[String]) -> (r: Result<Option<Vec<u16>>, Error>)
    ensures
        items@.len() == 0 ==> r == Ok::<Option<Vec<u16>>, Error>(None),
        items@.len() > 0 ==> match r {
            Ok(Some(v)) => (forall|i: int| 0 <= i < items@.len() ==> nul_free(#[trigger] wide_of(items@[i]@)))
                && v@ == double_nul_list(wide_all(items@)),
            Ok(None) => false,
            Err(e) => (exists|i: int| 0 <= i < items@.len() && !nul_free(#[trigger] wide_of(items@[i]@)))
                && e == Error::ArgumentHasNulByte,
        },
{
    if items.len() == 0 {
        return Ok(None);
    }
    let mut v: Vec<u16> = Vec::new();
    let mut i: usize = 0;
    while i < items.len()
        invariant
            i <= items@.len(),
            forall|k: int| 0 <= k < i ==> nul_free(#[trigger] wide_of(items@[k]@)),
            v@ == nul_separated(wide_all(items@.subrange(0, i as int))),
        decreases items@.len() - i,
    {
        let w = encode_wide(items[i].as_str());
        if has_nul(w.as_slice()) {
            return Err(Error::ArgumentHasNulByte);
        }
        let ghost before = v@;
        let mut j: usize = 0;
        while j < w.len()
            invariant
                j <= w@.len(),
                v@ == before + w@.subrange(0, j as int),
            decreases w@.len() - j,
        {
            v.push(w[j]);
            j = j + 1;
            assert(v@ =~= before + w@.subrange(0, j as int));
        }
        v.push(0);
        proof {
            let done = wide_all(items@.subrange(0, i + 1));
            assert(done.drop_last() =~= wide_all(items@.subrange(0, i as int)));
            assert(done.last() == wide_of(items@[i as int]@));
            assert(v@ =~= nul_separated(done));
        }
        i = i + 1;
    }
    assert(items@.subrange(0, i as int) =~= items@);
    v.push(0);
    Ok(Some(v))
}

} // verus!

verus! {

/// Whether `a` and `b` hold the same units.
pub fn same_units(a: &[u16], b: &[u16]) -> (r: bool)
    ensures
        r == (a@ == b@),
{
    if a.len() != b.len() {
        return false;
    }
    let mut i: usize = 0;
    while i < a.len()
        invariant
            a@.len() == b@.len(),
            i <= a@.len(),
            forall|k: int| 0 <= k < i ==> a@[k] == b@[k],
        decreases a@.len() - i,
    {
        if a[i] != b[i] {
            return false;
        }
        i = i + 1;
    }
    assert(a@ =~= b@);
    true
}

} // verus!
