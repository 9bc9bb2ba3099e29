//! The word source: splitting a newline-delimited word list into its lines
//! and selecting one entry at random.
use vstd::prelude::*;

verus! {

/// Why no word could be selected.
#[derive(Clone, Copy, Debug, PartialEq, Eq, Structural)]
pub enum WordListError {
    /// The word list holds no entry to select.
    Empty,
}

/// The views of the strings in `lines`, in order.
pub open spec fn lines_view(lines: Seq<String>) -> Seq<Seq<char>> {
    lines.map_values(|l: String| l@)
}

/// The text that `lines` came from: the lines themselves, with one newline
/// between each adjacent pair.
pub open spec fn join_lines(lines: Seq<Seq<char>>) -> Seq<char>
    decreases lines.len(),
{
    if lines.len() == 0 {
        Seq::empty()
    } else if lines.len() == 1 {
        lines[0]
    } else {
        join_lines(lines.drop_last()).push('\n') + lines.last()
    }
}

/// Appending one more line to a joined text appends a newline separator
/// first, unless the text was empty of lines.
proof fn lemma_join_lines_push(lines: Seq<Seq<char>>, x: Seq<char>)
    ensures
        lines.len() == 0 ==> join_lines(lines.push(x)) == x,
        lines.len() > 0 ==> join_lines(lines.push(x)) == join_lines(lines).push('\n') + x,
{
    let p = lines.push(x);
    if lines.len() == 0 {
        assert(p[0] == x);
    } else {
        assert(p.drop_last() =~= lines);
        assert(p.last() == x);
    }
}

/// Split a newline-delimited text into its lines, in order. The contract
/// pins the result down: no line holds a newline, and putting the lines
/// back together with one newline between each pair gives the input back.
/// A text of length zero yields one empty line, as splitting does.
pub fn split_lines(contents: &str) -> (lines: Vec<String>)
    ensures
        lines@.len() >= 1,
        forall|k: int| 0 <= k < lines@.len() ==> !lines@[k]@.contains('\n'),
        join_lines(lines_view(lines@)) == contents@,
{
    let n = contents.unicode_len();
    let mut lines: Vec<String> = Vec::new();
    let mut start: usize = 0;
    let mut i: usize = 0;
    proof {
        assert(lines_view(lines@).push(contents@.subrange(0, 0)).len() == 1);
        assert(join_lines(lines_view(lines@).push(contents@.subrange(0, 0)))
            =~= contents@.take(0));
    }
    while i < n
        invariant
            n == contents@.len(),
            start <= i <= n,
            forall|k: int| 0 <= k < lines@.len() ==> !lines@[k]@.contains('\n'),
            forall|j: int| start <= j < i ==> contents@[j] != '\n',
            join_lines(lines_view(lines@).push(contents@.subrange(start as int, i as int)))
                == contents@.take(i as int),
        decreases n - i,
    {
        let ghost seg = contents@.subrange(start as int, i as int);
        let ghost lv = lines_view(lines@);
        let c = contents.get_char(i);
        if c == '\n' {
            let piece = contents.substring_char(start, i).to_owned();
            lines.push(piece);
            proof {
                assert forall|m: int| 0 <= m < seg.len() implies seg[m] != '\n' by {
                    assert(seg[m] == contents@[start + m]);
                }
                assert(!seg.contains('\n'));
                let lv2 = lines_view(lines@);
                assert(lv2 =~= lv.push(seg));
                let empty_seg = contents@.subrange(i + 1, i + 1);
                assert(empty_seg =~= Seq::<char>::empty());
                lemma_join_lines_push(lv2, empty_seg);
                lemma_join_lines_push(lv, seg);
                assert(join_lines(lv2) == contents@.take(i as int));
                assert(join_lines(lv2.push(empty_seg))
                    =~= contents@.take(i as int).push('\n'));
                assert(contents@.take(i + 1)
                    =~= contents@.take(i as int).push(contents@[i as int]));
            }
            start = i + 1;
        } else {
            proof {
                let seg2 = contents@.subrange(start as int, i + 1);
                assert(seg2 =~= seg.push(contents@[i as int]));
                lemma_join_lines_push(lv, seg);
                lemma_join_lines_push(lv, seg2);
                if lv.len() > 0 {
                    assert(join_lines(lv).push('\n') + seg2
                        =~= (join_lines(lv).push('\n') + seg).push(contents@[i as int]));
                }
                assert(contents@.take(i + 1)
                    =~= contents@.take(i as int).push(contents@[i as int]));
            }
        }
        i += 1;
    }
    let piece = contents.substring_char(start, n).to_owned();
    let ghost seg = contents@.subrange(start as int, n as int);
    let ghost lv = lines_view(lines@);
    lines.push(piece);
    proof {
        assert forall|m: int| 0 <= m < seg.len() implies seg[m] != '\n' by {
            assert(seg[m] == contents@[start + m]);
        }
        assert(!seg.contains('\n'));
        assert(lines_view(lines@) =~= lv.push(seg));
        assert(join_lines(lines_view(lines@)) == contents@.take(n as int));
        assert(contents@.take(n as int) =~= contents@);
    }
    lines
}

/// Relies on rand::thread_rng and rand::Rng::gen_range: sampling the range
/// `0..len` yields a value of that range, and panics only when the range is
/// empty. Nothing more is assumed of the sample: any index under `len` may
/// come back, and two calls may differ.
#[verifier::external_body]
fn random_index(len: usize) -> (i: usize)
    requires
        len > 0,
    ensures
        i < len,
{
    rand::Rng::gen_range(&mut rand::thread_rng(), 0..len)
}

/// Select one entry of the word list at random. Fails exactly when the list
/// is empty, so that there is no word to select.
pub fn choose_random_word(words: &Vec<String>) -> (r: Result<String, WordListError>)
    ensures
        r is Ok <==> words@.len() > 0,
        (r matches Ok(w) ==> exists|k: int|
            0 <= k < words@.len() && w@ == words@[k]@),
        (r matches Err(e) ==> e == WordListError::Empty),
{
    if words.len() == 0 {
        Err(WordListError::Empty)
    } else {
        let k = random_index(words.len());
        let w = words[k].clone();
        proof {
            assert(w@ == words@[k as int]@);
        }
        Ok(w)
    }
}

} // verus!
