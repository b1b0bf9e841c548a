//! Emoji tokens and the placeholder round trip used while wrapping.

use vstd::prelude::*;

verus! {

/// The code point that stands in for every emoji while text is measured
/// and wrapped.
pub const SENTINEL: char = '\u{1f600}';

/// `String::push` of the standard library: the character is appended at
/// the end, and nothing else changes.
pub assume_specification[ String::push ](s: &mut String, ch: char)
    ensures
        final(s)@ == old(s)@.push(ch),
;

/// An emoji found in a text: either a Unicode sequence, or an emoji of
/// an outside service that is known only by its numeric id.
#[derive(Debug, PartialEq, Eq)]
pub enum EmojiToken {
    Regular(String),
    External(String),
}

impl Clone for EmojiToken {
    fn clone(&self) -> (r: EmojiToken)
        ensures
            r == *self,
    {
        match self {
            EmojiToken::Regular(sequence) => EmojiToken::Regular(sequence.clone()),
            EmojiToken::External(id) => EmojiToken::External(id.clone()),
        }
    }
}

impl EmojiToken {
    /// The characters a token is written back as: a Unicode sequence as
    /// itself, an outside emoji as `<:ee:ID>`.
    pub open spec fn spec_representation(&self) -> Seq<char> {
        match self {
            EmojiToken::Regular(sequence) => sequence@,
            EmojiToken::External(id) => seq!['<', ':', 'e', 'e', ':'] + id@ + seq!['>'],
        }
    }

    pub fn representation(&self) -> (r: String)
        ensures
            r@ == self.spec_representation(),
    {
        match self {
            EmojiToken::Regular(sequence) => sequence.clone(),
            EmojiToken::External(id) => {
                proof {
                    reveal_strlit("<:ee:");
                    reveal_strlit(">");
                }
                let mut out = String::from_str("<:ee:");
                assert(out@ =~= seq!['<', ':', 'e', 'e', ':']);
                out.append(id.as_str());
                out.append(">");
                assert(">"@ =~= seq!['>']);
                out
            },
        }
    }
}

/// The written forms of `tokens`, in order.
pub open spec fn representations(tokens: Seq<EmojiToken>) -> Seq<Seq<char>> {
    Seq::new(tokens.len(), |i: int| tokens[i].spec_representation())
}

/// How many placeholders `s` holds.
pub open spec fn count_sentinels(s: Seq<char>) -> nat
    decreases s.len(),
{
    if s.len() == 0 {
        0
    } else {
        count_sentinels(s.drop_last()) + if s.last() == SENTINEL { 1nat } else { 0nat }
    }
}

/// `s` with its placeholders replaced from left to right: the `k`-th one by
/// `reps[start + k]`. A placeholder for which `reps` has no entry left stays.
pub open spec fn restore(s: Seq<char>, reps: Seq<Seq<char>>, start: nat) -> Seq<char>
    decreases s.len(),
{
    if s.len() == 0 {
        Seq::empty()
    } else {
        let head = s.drop_last();
        let at = start + count_sentinels(head);
        if s.last() == SENTINEL && at < reps.len() {
            restore(head, reps, start) + reps[at as int]
        } else {
            restore(head, reps, start).push(s.last())
        }
    }
}

/// What `reps` holds, each entry by its characters.
pub open spec fn texts(reps: Seq<String>) -> Seq<Seq<char>> {
    Seq::new(reps.len(), |i: int| reps[i]@)
}

/// The smaller of two counts.
pub open spec fn at_most(n: int, cap: int) -> int {
    if n <= cap {
        n
    } else {
        cap
    }
}

fn restore_line(line: &str, reps: &Vec<String>, start: usize) -> (r: (String, usize))
    requires
        start <= reps@.len(),
    ensures
        r.0@ == restore(line@, texts(reps@), start as nat),
        r.1 == at_most(start + count_sentinels(line@), reps@.len() as int),
{
    broadcast use vstd::string::group_string_axioms;

    let mut out = String::new();
    let mut next: usize = start;
    for c in it: line.chars()
        invariant
            it.seq() == line@,
            start <= next <= reps@.len(),
            next == at_most(start + count_sentinels(line@.take(it.index())), reps@.len() as int),
            out@ == restore(line@.take(it.index()), texts(reps@), start as nat),
    {
        proof {
            let i = it.index();
            assert(line@.take(i + 1).drop_last() == line@.take(i));
            assert(line@.take(i + 1).last() == c);
        }
        if c == SENTINEL && next < reps.len() {
            out.append(reps[next].as_str());
            next = next + 1;
        } else {
            out.push(c);
        }
    }
    proof {
        assert(line@.take(line@.len() as int) == line@);
    }
    (out, next)
}

/// Placeholders in the lines before line `i`.
pub open spec fn sentinels_before(lines: Seq<Seq<char>>, i: int) -> nat
    decreases i,
{
    if i <= 0 {
        0
    } else {
        sentinels_before(lines, i - 1) + count_sentinels(lines[i - 1])
    }
}

/// Every line restored, the lines sharing one run of `reps`: a line starts
/// with the entry after the last one that the lines above it used.
pub open spec fn restore_lines(lines: Seq<Seq<char>>, reps: Seq<Seq<char>>) -> Seq<Seq<char>> {
    Seq::new(lines.len(), |i: int| restore(lines[i], reps, sentinels_before(lines, i)))
}

/// Once `reps` is used up, nothing is replaced any more.
pub proof fn lemma_restore_exhausted(s: Seq<char>, reps: Seq<Seq<char>>, start: nat)
    requires
        start >= reps.len(),
    ensures
        restore(s, reps, start) == s,
    decreases s.len(),
{
    if s.len() > 0 {
        lemma_restore_exhausted(s.drop_last(), reps, start);
        assert(s.drop_last().push(s.last()) == s);
    }
}

/// Puts the emojis back into wrapped lines. Each placeholder, read line by
/// line and left to right, gives way to the written form of the next token
/// of `emojis`; placeholders beyond the last token stay as they are.
pub fn restore_emojis(lines: Vec<String>, emojis: &Vec<EmojiToken>) -> (restored: Vec<String>)
    ensures
        texts(restored@) == restore_lines(texts(lines@), representations(emojis@)),
{
    let mut reps: Vec<String> = Vec::new();
    for k in 0..emojis.len()
        invariant
            reps@.len() == k,
            forall|j: int| 0 <= j < k ==> (#[trigger] reps@[j])@ == emojis@[j].spec_representation(),
    {
        reps.push(emojis[k].representation());
    }
    assert(texts(reps@) =~= representations(emojis@));

    let ghost source = texts(lines@);
    let mut restored: Vec<String> = Vec::new();
    let mut next: usize = 0;
    for i in 0..lines.len()
        invariant
            source == texts(lines@),
            texts(reps@) == representations(emojis@),
            restored@.len() == i,
            next <= reps@.len(),
            next == at_most(sentinels_before(source, i as int) as int, reps@.len() as int),
            forall|j: int| 0 <= j < i ==> (#[trigger] restored@[j])@ == restore(source[j], texts(reps@), sentinels_before(source, j)),
    {
        let (line, after) = restore_line(lines[i].as_str(), &reps, next);
        proof {
            let before = sentinels_before(source, i as int);
            if before > reps@.len() {
                lemma_restore_exhausted(source[i as int], texts(reps@), before);
                lemma_restore_exhausted(source[i as int], texts(reps@), next as nat);
            }
        }
        restored.push(line);
        next = after;
    }
    assert(texts(restored@) =~= restore_lines(source, representations(emojis@)));
    restored
}

/// The lines written one after another, `sep` between each two.
pub open spec fn join(lines: Seq<Seq<char>>, sep: Seq<char>) -> Seq<char>
    decreases lines.len(),
{
    if lines.len() == 0 {
        Seq::empty()
    } else if lines.len() == 1 {
        lines[0]
    } else {
        join(lines.drop_last(), sep) + sep + lines.last()
    }
}

/// `pieces[0]`, `fill[0]`, `pieces[1]`, `fill[1]`, and so on, ending with the
/// last piece; there is one piece more than there are fillings.
pub open spec fn weave(pieces: Seq<Seq<char>>, fill: Seq<Seq<char>>) -> Seq<char>
    recommends
        pieces.len() == fill.len() + 1,
    decreases fill.len(),
{
    if fill.len() == 0 || pieces.len() == 0 {
        if pieces.len() == 0 {
            Seq::empty()
        } else {
            pieces[0]
        }
    } else {
        weave(pieces.drop_last(), fill.drop_last()) + fill.last() + pieces.last()
    }
}

/// `n` placeholders, each as a text of its own.
pub open spec fn placeholders(n: nat) -> Seq<Seq<char>> {
    Seq::new(n, |i: int| seq![SENTINEL])
}

/// Placeholders are counted part by part.
pub proof fn lemma_count_concat(a: Seq<char>, b: Seq<char>)
    ensures
        count_sentinels(a + b) == count_sentinels(a) + count_sentinels(b),
    decreases b.len(),
{
    if b.len() == 0 {
        assert(a + b == a);
    } else {
        lemma_count_concat(a, b.drop_last());
        assert((a + b).drop_last() == a + b.drop_last());
        assert((a + b).last() == b.last());
    }
}

/// Restoring a text is restoring its first part, then its second part with
/// the entries that the first part left over.
pub proof fn lemma_restore_concat(a: Seq<char>, b: Seq<char>, reps: Seq<Seq<char>>, start: nat)
    ensures
        restore(a + b, reps, start) == restore(a, reps, start) + restore(
            b,
            reps,
            start + count_sentinels(a),
        ),
    decreases b.len(),
{
    if b.len() == 0 {
        assert(a + b == a);
        assert(restore(a, reps, start) + Seq::<char>::empty() == restore(a, reps, start));
    } else {
        let head = b.drop_last();
        lemma_restore_concat(a, head, reps, start);
        lemma_count_concat(a, head);
        assert((a + b).drop_last() == a + head);
        assert((a + b).last() == b.last());
        let left = restore(a, reps, start);
        let mid = restore(head, reps, start + count_sentinels(a));
        let at = start + count_sentinels(a) + count_sentinels(head);
        if b.last() == SENTINEL && at < reps.len() {
            assert((left + mid) + reps[at as int] == left + (mid + reps[at as int]));
        } else {
            assert((left + mid).push(b.last()) == left + mid.push(b.last()));
        }
    }
}

/// A text without placeholders is restored to itself.
pub proof fn lemma_restore_plain(s: Seq<char>, reps: Seq<Seq<char>>, start: nat)
    requires
        count_sentinels(s) == 0,
    ensures
        restore(s, reps, start) == s,
    decreases s.len(),
{
    if s.len() > 0 {
        lemma_restore_plain(s.drop_last(), reps, start);
        assert(s.drop_last().push(s.last()) == s);
    }
}

/// Entries that no placeholder reaches do not matter.
pub proof fn lemma_restore_unused(s: Seq<char>, reps: Seq<Seq<char>>, start: nat, used: int)
    requires
        start + count_sentinels(s) <= used <= reps.len(),
    ensures
        restore(s, reps, start) == restore(s, reps.take(used), start),
    decreases s.len(),
{
    if s.len() > 0 {
        lemma_restore_unused(s.drop_last(), reps, start, used);
    }
}

/// The lines before line `i`, joined, hold the placeholders of those lines.
pub proof fn lemma_count_join(lines: Seq<Seq<char>>, sep: Seq<char>)
    requires
        count_sentinels(sep) == 0,
    ensures
        count_sentinels(join(lines, sep)) == sentinels_before(lines, lines.len() as int),
    decreases lines.len(),
{
    if lines.len() == 0 {
    } else if lines.len() == 1 {
        assert(sentinels_before(lines, 0) == 0);
    } else {
        let head = lines.drop_last();
        lemma_count_join(head, sep);
        lemma_sentinels_before_prefix(lines, head, head.len() as int);
        lemma_count_concat(join(head, sep), sep);
        lemma_count_concat(join(head, sep) + sep, lines.last());
    }
}

/// The count before line `i` looks at the lines before line `i` only.
pub proof fn lemma_sentinels_before_prefix(a: Seq<Seq<char>>, b: Seq<Seq<char>>, i: int)
    requires
        0 <= i <= a.len(),
        i <= b.len(),
        forall|j: int| 0 <= j < i ==> a[j] == b[j],
    ensures
        sentinels_before(a, i) == sentinels_before(b, i),
    decreases i,
{
    if i > 0 {
        lemma_sentinels_before_prefix(a, b, i - 1);
    }
}

/// Where the lines are broken does not change which emoji lands where:
/// restoring line by line and then joining the lines gives what restoring
/// the joined text in one go gives.
pub proof fn lemma_restore_lines_joined(lines: Seq<Seq<char>>, sep: Seq<char>, reps: Seq<Seq<char>>)
    requires
        count_sentinels(sep) == 0,
    ensures
        join(restore_lines(lines, reps), sep) == restore(join(lines, sep), reps, 0),
    decreases lines.len(),
{
    let done = restore_lines(lines, reps);
    if lines.len() == 0 {
    } else if lines.len() == 1 {
        assert(sentinels_before(lines, 0) == 0);
    } else {
        let head = lines.drop_last();
        let n = head.len() as int;
        lemma_restore_lines_joined(head, sep, reps);
        assert(done.drop_last() =~= restore_lines(head, reps)) by {
            assert forall|j: int| 0 <= j < n implies sentinels_before(lines, j)
                == sentinels_before(head, j) by {
                lemma_sentinels_before_prefix(lines, head, j);
            }
        }
        lemma_count_join(head, sep);
        lemma_sentinels_before_prefix(lines, head, n);
        let text = join(head, sep);
        lemma_restore_concat(text, sep, reps, 0);
        lemma_restore_plain(sep, reps, count_sentinels(text));
        lemma_count_concat(text, sep);
        lemma_restore_concat(text + sep, lines.last(), reps, 0);
    }
}

/// Pieces without placeholders, woven with placeholders, hold as many
/// placeholders as were woven in.
pub proof fn lemma_count_weave(pieces: Seq<Seq<char>>, n: nat)
    requires
        pieces.len() == n + 1,
        forall|i: int| 0 <= i < pieces.len() ==> count_sentinels(#[trigger] pieces[i]) == 0,
    ensures
        count_sentinels(weave(pieces, placeholders(n))) == n,
    decreases n,
{
    if n > 0 {
        let head = pieces.drop_last();
        lemma_count_weave(head, (n - 1) as nat);
        assert(placeholders(n).drop_last() =~= placeholders((n - 1) as nat));
        let text = weave(head, placeholders((n - 1) as nat));
        let mark = seq![SENTINEL];
        assert(placeholders(n).last() == mark);
        assert(count_sentinels(mark) == 1) by {
            assert(mark.drop_last() =~= Seq::<char>::empty());
            assert(count_sentinels(mark.drop_last()) == 0);
        }
        lemma_count_concat(text, mark);
        lemma_count_concat(text + mark, pieces.last());
    }
}

/// Every emoji comes back exactly once and in the order of the text: a text
/// made of plain pieces with one placeholder between each two is restored
/// to the same pieces with the emojis between them, the first emoji where
/// the first placeholder stood.
pub proof fn lemma_restore_weave(pieces: Seq<Seq<char>>, reps: Seq<Seq<char>>)
    requires
        pieces.len() == reps.len() + 1,
        forall|i: int| 0 <= i < pieces.len() ==> count_sentinels(#[trigger] pieces[i]) == 0,
    ensures
        restore(weave(pieces, placeholders(reps.len())), reps, 0) == weave(pieces, reps),
    decreases reps.len(),
{
    let n = reps.len();
    if n > 0 {
        let head = pieces.drop_last();
        let fewer = reps.drop_last();
        let m = (n - 1) as nat;
        lemma_restore_weave(head, fewer);
        lemma_count_weave(head, m);
        assert(placeholders(n).drop_last() =~= placeholders(m));
        let text = weave(head, placeholders(m));
        let mark = seq![SENTINEL];
        assert(placeholders(n).last() == mark);
        assert(fewer =~= reps.take(m as int));
        lemma_restore_unused(text, reps, 0, m as int);
        lemma_restore_concat(text, mark, reps, 0);
        assert(restore(mark, reps, m) == reps[m as int]) by {
            assert(mark.drop_last() =~= Seq::<char>::empty());
            assert(count_sentinels(mark.drop_last()) == 0);
            assert(restore(mark.drop_last(), reps, m) =~= Seq::<char>::empty());
            assert(Seq::<char>::empty() + reps[m as int] =~= reps[m as int]);
        }
        assert(count_sentinels(mark) == 1) by {
            assert(mark.drop_last() =~= Seq::<char>::empty());
            assert(count_sentinels(mark.drop_last()) == 0);
        }
        lemma_count_concat(text, mark);
        lemma_restore_concat(text + mark, pieces.last(), reps, 0);
        lemma_restore_plain(pieces.last(), reps, n);
    } else {
        lemma_restore_plain(pieces[0], reps, 0);
    }
}

/// Every emoji appears exactly once across the restored lines, in its
/// order in the text. If the wrapped lines, joined, are plain pieces with one
/// placeholder between each two, and there is one emoji for each
/// placeholder, then the restored lines, joined, are the same pieces with
/// the emojis between them: the first emoji where the first placeholder
/// stood, the second where the second stood, and nowhere else.
pub proof fn lemma_emojis_restored_in_order(
    lines: Seq<Seq<char>>,
    sep: Seq<char>,
    pieces: Seq<Seq<char>>,
    reps: Seq<Seq<char>>,
)
    requires
        count_sentinels(sep) == 0,
        pieces.len() == reps.len() + 1,
        forall|i: int| 0 <= i < pieces.len() ==> count_sentinels(#[trigger] pieces[i]) == 0,
        join(lines, sep) == weave(pieces, placeholders(reps.len())),
    ensures
        join(restore_lines(lines, reps), sep) == weave(pieces, reps),
{
    lemma_restore_lines_joined(lines, sep, reps);
    lemma_restore_weave(pieces, reps);
}

} // verus!
