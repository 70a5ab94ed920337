use vstd::prelude::*;

verus! {

/// `parts` written one after another with `sep` between each two of them.
pub open spec fn joined(parts: Seq<Seq<char>>, sep: Seq<char>) -> Seq<char>
    decreases parts.len(),
{
    if parts.len() == 0 {
        Seq::empty()
    } else if parts.len() == 1 {
        parts[0]
    } else {
        joined(parts.drop_last(), sep) + sep + parts.last()
    }
}

/// The texts of a list of strings.
pub open spec fn texts_of(strings: Seq<String>) -> Seq<Seq<char>> {
    strings.map_values(|s: String| s@)
}

/// Appending a string appends its text.
pub proof fn lemma_texts_of_push(strings: Seq<String>, s: String)
    ensures
        texts_of(strings.push(s)) =~= texts_of(strings).push(s@),
{
    assert(strings.push(s).len() == strings.len() + 1);
}

/// Joins `parts` with `sep` between each two of them, as `[..].join(sep)` does.
pub fn join_strings(parts: &Vec<String>, sep: &str) -> (joined_text: String)
    ensures
        joined_text@ == joined(texts_of(parts@), sep@),
{
    let mut out = String::new();
    let ghost texts = texts_of(parts@);
    let n = parts.len();
    assert(texts.take(0) =~= Seq::<Seq<char>>::empty());
    for i in 0..n
        invariant
            n == parts@.len(),
            texts == texts_of(parts@),
            out@ == joined(texts.take(i as int), sep@),
    {
        if i != 0 {
            out.append(sep);
        }
        out.append(parts[i].as_str());
        assert(texts.take(i + 1).drop_last() =~= texts.take(i as int));
        assert(texts.take(i + 1).last() == parts@[i as int]@);
        if i == 0 {
            assert(texts.take(1) =~= seq![parts@[0]@]);
            assert(out@ =~= parts@[0]@);
        }
    }
    assert(texts.take(n as int) =~= texts);
    out
}

/// Whether two strings hold the same characters.
pub fn same_text(a: &str, b: &str) -> (same: bool)
    ensures
        same == (a@ == b@),
{
    let n = a.unicode_len();
    if n != b.unicode_len() {
        return false;
    }
    let mut i: usize = 0;
    while i < n
        invariant
            n == a@.len(),
            n == b@.len(),
            i <= n,
            forall|k: int| 0 <= k < i ==> a@[k] == b@[k],
        decreases n - i,
    {
        if a.get_char(i) != b.get_char(i) {
            return false;
        }
        i += 1;
    }
    assert(a@ =~= b@);
    true
}

} // verus!
