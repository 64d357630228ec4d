use vstd::prelude::*;
use crate::error::FeroxError;

verus! {

/// Whether `t` holds the scheme separator `://` at position `i`.
pub open spec fn separator_at(t: Seq<char>, i: int) -> bool {
    0 <= i && i + 3 <= t.len() && t[i] == ':' && t[i + 1] == '/' && t[i + 2] == '/'
}

/// The position of the first scheme separator at or after `i`, or -1.
pub open spec fn separator_from(t: Seq<char>, i: int) -> int
    decreases t.len() - i,
{
    if i < 0 || i + 3 > t.len() {
        -1
    } else if separator_at(t, i) {
        i
    } else {
        separator_from(t, i + 1)
    }
}

/// The number of `/` characters in `s`.
pub open spec fn slash_count(s: Seq<char>) -> nat
    decreases s.len(),
{
    if s.len() == 0 {
        0
    } else {
        slash_count(s.drop_last()) + if s.last() == '/' { 1nat } else { 0nat }
    }
}

/// The recursion depth of a target: the number of `/`-separated path segments
/// after the scheme, with the target read as a directory (a trailing `/`
/// added where it has none). A top-level URL has depth 1, a target without a
/// scheme depth 0.
pub open spec fn depth_of(t: Seq<char>) -> nat {
    let sep = separator_from(t, 0);
    if sep < 0 {
        0
    } else {
        let rest = t.subrange(sep + 3, t.len() as int);
        slash_count(rest) + if rest.len() > 0 && rest.last() == '/' { 0nat } else { 1nat }
    }
}

proof fn lemma_separator_from_range(t: Seq<char>, i: int)
    ensures
        separator_from(t, i) == -1 || (i <= separator_from(t, i) && separator_at(t, separator_from(t, i))),
    decreases t.len() - i,
{
    if !(i < 0 || i + 3 > t.len()) && !separator_at(t, i) {
        lemma_separator_from_range(t, i + 1);
    }
}

/// The recursion depth from which a target's scan starts.
pub fn get_current_depth(target: &str) -> (d: usize)
    ensures
        d == depth_of(target@),
{
    let n = target.unicode_len();
    let mut i: usize = 0;
    let mut sep: Option<usize> = None;
    while sep.is_none() && n - i >= 3
        invariant
            n == target@.len(),
            i <= n,
            sep is None ==> separator_from(target@, 0) == separator_from(target@, i as int),
            sep matches Some(s) ==> s == separator_from(target@, 0) && s + 3 <= n,
        decreases n - i,
    {
        if target.get_char(i) == ':' && target.get_char(i + 1) == '/' && target.get_char(i + 2) == '/' {
            sep = Some(i);
        }
        i = i + 1;
    }
    proof {
        lemma_separator_from_range(target@, 0);
    }
    match sep {
        None => 0,
        Some(s) => {
            let ghost rest = target@.subrange(s + 3, n as int);
            let mut count: usize = 0;
            let mut j: usize = s + 3;
            while j < n
                invariant
                    n == target@.len(),
                    s + 3 <= j <= n,
                    rest == target@.subrange(s + 3, n as int),
                    count == slash_count(target@.subrange(s + 3, j as int)),
                    count <= j - (s + 3),
                decreases n - j,
            {
                let c = target.get_char(j);
                proof {
                    assert(target@.subrange(s + 3, j + 1).drop_last() =~= target@.subrange(s + 3, j as int));
                }
                if c == '/' {
                    count = count + 1;
                }
                j = j + 1;
            }
            proof {
                assert(target@.subrange(s + 3, n as int) =~= rest);
            }
            if n > s + 3 && target.get_char(n - 1) == '/' {
                count
            } else {
                count + 1
            }
        }
    }
}

/// Where the targets of a run come from.
pub enum TargetSource {
    /// The single target given on the command line.
    Configured(String),
    /// The lines read from standard input, in arrival order, up to the end of
    /// the stream or the first line that could not be decoded (`None`).
    Stream(Vec<Option<String>>),
}

/// The targets that a stream of lines gives, when every line decoded.
pub open spec fn stream_targets(lines: Seq<Option<String>>) -> Option<Seq<Seq<char>>> {
    if forall|i: int| 0 <= i < lines.len() ==> lines[i] is Some {
        Some(lines.map_values(|l: Option<String>| l->Some_0@))
    } else {
        None
    }
}

/// The ordered sequence of base targets: the configured target alone, or every
/// line of the input stream in arrival order. A line that could not be decoded
/// fails the whole resolution.
pub fn get_targets(source: TargetSource) -> (r: Result<Vec<String>, FeroxError>)
    ensures
        source is Configured ==> (r matches Ok(v) && v@.len() == 1 && v@[0]@ == source->Configured_0@),
        source is Stream ==> match stream_targets(source->Stream_0@) {
            Some(ts) => (r matches Ok(v) && v@.map_values(|s: String| s@) == ts),
            None => (r matches Err(e) && e == FeroxError::InputStream),
        },
{
    match source {
        TargetSource::Configured(t) => {
            let mut v: Vec<String> = Vec::new();
            v.push(t);
            Ok(v)
        }
        TargetSource::Stream(lines) => {
            let mut v: Vec<String> = Vec::new();
            let mut i: usize = 0;
            while i < lines.len()
                invariant
                    source == TargetSource::Stream(lines),
                    0 <= i <= lines.len(),
                    v@.len() == i,
                    forall|j: int| 0 <= j < i ==> lines@[j] is Some,
                    forall|j: int| 0 <= j < i ==> v@[j]@ == lines@[j]->Some_0@,
                decreases lines.len() - i,
            {
                match &lines[i] {
                    Some(line) => {
                        v.push(line.clone());
                    }
                    None => {
                        proof {
                            assert(!(lines@[i as int] is Some));
                            assert(stream_targets(lines@) is None);
                        }
                        return Err(FeroxError::InputStream);
                    }
                }
                i = i + 1;
            }
            proof {
                assert(v@.map_values(|s: String| s@) =~= lines@.map_values(|l: Option<String>| l->Some_0@));
            }
            Ok(v)
        }
    }
}

} // verus!
