use vstd::prelude::*;

verus! {

/// A wordlist line carries a word when it is neither empty nor a `#` comment.
pub open spec fn is_word_line(line: Seq<char>) -> bool {
    line.len() > 0 && line[0] != '#'
}

/// The character sequences of a list of lines.
pub open spec fn line_views(lines: Seq<String>) -> Seq<Seq<char>> {
    lines.map_values(|l: String| l@)
}

/// The words that a wordlist file's lines hold, duplicates collapsed.
pub open spec fn word_set(lines: Seq<Seq<char>>) -> Set<Seq<char>> {
    lines.filter(|l: Seq<char>| is_word_line(l)).to_set()
}

/// A wordlist file whose lines are all blank or comments holds no word.
pub proof fn lemma_comments_only_give_no_words(lines: Seq<Seq<char>>)
    requires
        forall|i: int| 0 <= i < lines.len() ==> !is_word_line(#[trigger] lines[i]),
    ensures
        word_set(lines).len() == 0,
{
    let f = |l: Seq<char>| is_word_line(l);
    if lines.filter(f).len() > 0 {
        lines.lemma_filter_pred(f, 0);
        assert(lines.filter(f).contains(lines.filter(f)[0]));
        lines.lemma_filter_contains_rev(f, lines.filter(f)[0]);
    }
    lines.filter(f).lemma_cardinality_of_empty_set_is_0();
}

/// The words of a file are exactly its distinct non-empty, non-comment lines,
/// so their number is the number of such distinct lines.
pub proof fn lemma_word_set_is_distinct_word_lines(lines: Seq<Seq<char>>)
    ensures
        word_set(lines).finite(),
        forall|w: Seq<char>| #[trigger] word_set(lines).contains(w) <==> (is_word_line(w) && lines.contains(w)),
        word_set(lines).len() <= lines.len(),
{
    let f = |l: Seq<char>| is_word_line(l);
    assert forall|w: Seq<char>| #[trigger] word_set(lines).contains(w) <==> (is_word_line(w) && lines.contains(w)) by {
        if is_word_line(w) && lines.contains(w) {
            let i = lines.index_of(w);
            lines.lemma_filter_contains(f, i);
        }
        if word_set(lines).contains(w) {
            let j = lines.filter(f).index_of(w);
            lines.lemma_filter_pred(f, j);
            lines.lemma_filter_contains_rev(f, w);
        }
    }
    lines.filter(f).lemma_cardinality_of_set();
    lines.lemma_filter_len(f);
}

/// Decides whether one line of a wordlist file is a word.
pub fn is_word(line: &str) -> (r: bool)
    ensures
        r == is_word_line(line@),
{
    if line.unicode_len() == 0 {
        false
    } else {
        line.get_char(0) != '#'
    }
}

/// Number of buckets of a wordlist's index.
const BUCKETS: usize = 4093;

/// The index bucket of a word: a polynomial hash of its characters.
spec fn bucket_of(s: Seq<char>) -> nat
    decreases s.len(),
{
    if s.len() == 0 {
        0
    } else {
        (bucket_of(s.drop_last()) * 31 + (s.last() as u32) as nat) % (BUCKETS as nat)
    }
}

/// `buckets` indexes `words`: every word's position sits in its bucket, and
/// every position in a bucket is that of a word of that bucket.
spec fn indexes(words: Seq<String>, buckets: Seq<Vec<usize>>) -> bool {
    &&& buckets.len() == BUCKETS
    &&& words.len() <= usize::MAX
    &&& forall|i: int|
        0 <= i < words.len() ==> buckets[bucket_of(#[trigger] words[i]@) as int]@.contains(i as usize)
    &&& forall|b: int, j: int|
        0 <= b < buckets.len() && 0 <= j < buckets[b]@.len() ==> {
            &&& (#[trigger] buckets[b]@[j]) < words.len()
            &&& bucket_of(words[buckets[b]@[j] as int]@) == b
        }
}

fn bucket_index(s: &str) -> (h: usize)
    ensures
        h == bucket_of(s@),
        h < BUCKETS,
{
    let n = s.unicode_len();
    let mut h: usize = 0;
    let mut i: usize = 0;
    proof {
        assert(s@.take(0) =~= Seq::<char>::empty());
    }
    while i < n
        invariant
            n == s@.len(),
            i <= n,
            h == bucket_of(s@.take(i as int)),
            h < BUCKETS,
        decreases n - i,
    {
        let c = s.get_char(i);
        proof {
            assert(s@.take(i + 1).drop_last() =~= s@.take(i as int));
        }
        h = ((h as u64 * 31 + c as u32 as u64) % (BUCKETS as u64)) as usize;
        i = i + 1;
    }
    proof {
        assert(s@.take(n as int) =~= s@);
    }
    h
}

/// Whether `w` is among the indexed words; only `w`'s bucket is searched.
fn find(words: &Vec<String>, buckets: &Vec<Vec<usize>>, w: &String) -> (r: bool)
    requires
        indexes(words@, buckets@),
    ensures
        r == line_views(words@).contains(w@),
{
    let h = bucket_index(w.as_str());
    let bucket = &buckets[h];
    let mut j: usize = 0;
    while j < bucket.len()
        invariant
            indexes(words@, buckets@),
            h == bucket_of(w@),
            h < BUCKETS,
            *bucket == buckets@[h as int],
            j <= bucket.len(),
            forall|k: int| 0 <= k < j ==> words@[bucket@[k] as int]@ != w@,
        decreases bucket.len() - j,
    {
        let idx = bucket[j];
        if words[idx] == *w {
            proof {
                assert(line_views(words@)[idx as int] == w@);
            }
            return true;
        }
        j = j + 1;
    }
    proof {
        if line_views(words@).contains(w@) {
            let i = line_views(words@).index_of(w@);
            assert(words@[i]@ == w@);
            assert(bucket@.contains(i as usize));
            let k = bucket@.index_of(i as usize);
            assert(bucket@[k] as int == i);
            assert(words@[bucket@[k] as int]@ == w@);
        }
    }
    false
}

/// The deduplicated, read-only set of words appended to every target.
pub struct Wordlist {
    words: Vec<String>,
    buckets: Vec<Vec<usize>>,
}

impl View for Wordlist {
    type V = Set<Seq<char>>;

    closed spec fn view(&self) -> Set<Seq<char>> {
        line_views(self.words@).to_set()
    }
}

impl Wordlist {
    #[verifier::type_invariant]
    spec fn inv(self) -> bool {
        &&& line_views(self.words@).no_duplicates()
        &&& indexes(self.words@, self.buckets@)
    }

    /// Number of distinct words.
    pub fn len(&self) -> (r: usize)
        ensures
            r == self@.len(),
    {
        proof {
            use_type_invariant(self);
            line_views(self.words@).unique_seq_to_set();
        }
        self.words.len()
    }

    /// Whether the wordlist holds no word at all.
    pub fn is_empty(&self) -> (r: bool)
        ensures
            r == (self@.len() == 0),
    {
        self.len() == 0
    }

    /// Whether `word` is one of the words.
    pub fn contains(&self, word: &String) -> (r: bool)
        ensures
            r == self@.contains(word@),
    {
        proof {
            use_type_invariant(self);
        }
        find(&self.words, &self.buckets, word)
    }

    /// The words, each once.
    pub fn words(&self) -> (r: Vec<String>)
        ensures
            line_views(r@).no_duplicates(),
            line_views(r@).to_set() == self@,
    {
        proof {
            use_type_invariant(self);
        }
        self.words.clone()
    }
}

/// Reads a wordlist file's lines into a set of words: empty lines and lines
/// that begin with `#` are skipped, and a word met twice is kept once.
pub fn get_unique_words_from_wordlist(lines: &Vec<String>) -> (w: Wordlist)
    ensures
        w@ == word_set(line_views(lines@)),
{
    let mut words: Vec<String> = Vec::new();
    let mut buckets: Vec<Vec<usize>> = Vec::new();
    while buckets.len() < BUCKETS
        invariant
            buckets@.len() <= BUCKETS,
            forall|b: int| 0 <= b < buckets@.len() ==> (#[trigger] buckets@[b])@.len() == 0,
        decreases BUCKETS - buckets.len(),
    {
        buckets.push(Vec::new());
    }
    let mut i: usize = 0;
    proof {
        assert(line_views(words@) =~= Seq::<Seq<char>>::empty());
        assert(line_views(lines@).take(0).filter(|l: Seq<char>| is_word_line(l)) =~= Seq::<Seq<char>>::empty());
    }
    while i < lines.len()
        invariant
            0 <= i <= lines.len(),
            words@.len() <= i,
            line_views(words@).no_duplicates(),
            indexes(words@, buckets@),
            line_views(words@).to_set() == word_set(line_views(lines@).take(i as int)),
        decreases lines.len() - i,
    {
        let line = &lines[i];
        if is_word(line.as_str()) && !find(&words, &buckets, line) {
            let n = words.len();
            let h = bucket_index(line.as_str());
            let ghost old_words = words@;
            let ghost old_buckets = buckets@;
            words.push(line.clone());
            buckets[h].push(n);
            proof {
                lemma_index_push(old_words, old_buckets, words@, buckets@, h as int);
                assert(line_views(words@) =~= line_views(old_words).push(line@));
                line_views(old_words).lemma_push_to_set_commute(line@);
            }
        }
        proof {
            lemma_word_set_step(line_views(lines@), i as int);
        }
        i = i + 1;
    }
    proof {
        assert(line_views(lines@).take(lines.len() as int) =~= line_views(lines@));
    }
    Wordlist { words, buckets }
}

proof fn lemma_index_push(
    old_words: Seq<String>,
    old_buckets: Seq<Vec<usize>>,
    words: Seq<String>,
    buckets: Seq<Vec<usize>>,
    h: int,
)
    requires
        indexes(old_words, old_buckets),
        words.len() == old_words.len() + 1,
        words.len() <= usize::MAX,
        forall|i: int| 0 <= i < old_words.len() ==> words[i] == old_words[i],
        h == bucket_of(words[old_words.len() as int]@),
        buckets.len() == old_buckets.len(),
        forall|b: int| 0 <= b < buckets.len() && b != h ==> buckets[b] == old_buckets[b],
        0 <= h < buckets.len(),
        buckets[h]@ == old_buckets[h]@.push(old_words.len() as usize),
    ensures
        indexes(words, buckets),
{
    assert forall|i: int| 0 <= i < words.len() implies buckets[bucket_of(#[trigger] words[i]@) as int]@.contains(
        i as usize,
    ) by {
        if i < old_words.len() {
            assert(words[i] == old_words[i]);
            let b = bucket_of(old_words[i]@) as int;
            let k = old_buckets[b]@.index_of(i as usize);
            assert(buckets[b]@[k] == i as usize);
        } else {
            assert(buckets[h]@[old_buckets[h]@.len() as int] == i as usize);
        }
    }
    assert forall|b: int, j: int| 0 <= b < buckets.len() && 0 <= j < buckets[b]@.len() implies {
        &&& (#[trigger] buckets[b]@[j]) < words.len()
        &&& bucket_of(words[buckets[b]@[j] as int]@) == b
    } by {
        if b != h || j < old_buckets[h]@.len() {
            assert(buckets[b]@[j] == old_buckets[b]@[j]);
            assert(old_buckets[b]@[j] < old_words.len());
            assert(words[old_buckets[b]@[j] as int] == old_words[old_buckets[b]@[j] as int]);
        } else {
            assert(buckets[b]@[j] == old_words.len() as usize);
            assert(buckets[b]@[j] as int == old_words.len());
        }
    }
}

proof fn lemma_word_set_step(lines: Seq<Seq<char>>, i: int)
    requires
        0 <= i < lines.len(),
    ensures
        word_set(lines.take(i + 1)) == if is_word_line(lines[i]) {
            word_set(lines.take(i)).insert(lines[i])
        } else {
            word_set(lines.take(i))
        },
{
    let f = |l: Seq<char>| is_word_line(l);
    assert(lines.take(i + 1) =~= lines.take(i).push(lines[i]));
    assert(lines.take(i + 1).drop_last() =~= lines.take(i));
    assert(lines.take(i + 1).last() == lines[i]);
    reveal_with_fuel(Seq::filter, 1);
    if is_word_line(lines[i]) {
        assert(lines.take(i + 1).filter(f) == lines.take(i).filter(f).push(lines[i]));
        lines.take(i).filter(f).lemma_push_to_set_commute(lines[i]);
    } else {
        assert(lines.take(i + 1).filter(f) == lines.take(i).filter(f));
    }
}

} // verus!
