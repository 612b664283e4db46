use vstd::prelude::*;

verus! {

/// Number of letters in every word of the game.
pub const WORD_LENGTH: usize = 5;

/// The list of words a game draws its secret from and accepts as guesses.
pub struct CustomAsset {
    pub words: Vec<Vec<char>>,
}

impl View for CustomAsset {
    type V = Seq<Seq<char>>;

    open spec fn view(&self) -> Seq<Seq<char>> {
        self.words@.map_values(|w: Vec<char>| w@)
    }
}

/// `line` without the carriage return that ends it, if any.
pub open spec fn strip_cr(line: Seq<char>) -> Seq<char> {
    if line.len() > 0 && line.last() == '\r' {
        line.drop_last()
    } else {
        line
    }
}

/// Reads `text` from the left: the lines completed so far, each closed by a
/// newline (and stripped of a carriage return before it), and the text of
/// the line still open.
pub open spec fn scan_lines(text: Seq<char>) -> (Seq<Seq<char>>, Seq<char>)
    decreases text.len(),
{
    if text.len() == 0 {
        (Seq::empty(), Seq::empty())
    } else {
        let (done, open) = scan_lines(text.drop_last());
        if text.last() == '\n' {
            (done.push(strip_cr(open)), Seq::empty())
        } else {
            (done, open.push(text.last()))
        }
    }
}

/// The lines of `text`: split at each newline, a carriage return right before
/// a newline dropped, and no empty line after a final newline.
pub open spec fn lines_spec(text: Seq<char>) -> Seq<Seq<char>> {
    let (done, open) = scan_lines(text);
    if open.len() > 0 {
        done.push(open)
    } else {
        done
    }
}

/// Whether two words hold the same letters.
pub fn same_word(a: &Vec<char>, b: &Vec<char>) -> (r: bool)
    ensures
        r == (a@ == b@),
{
    if a.len() != b.len() {
        return false;
    }
    let mut i: usize = 0;
    while i < a.len()
        invariant
            a@.len() == b@.len(),
            0 <= i <= a@.len(),
            forall|j: int| 0 <= j < i ==> a@[j] == b@[j],
        decreases a@.len() - i,
    {
        if a[i] != b[i] {
            return false;
        }
        i += 1;
    }
    assert(a@ =~= b@);
    true
}

impl CustomAsset {
    /// Builds the word list from the text of a word file, one word per line.
    pub fn from_text(text: &Vec<char>) -> (r: CustomAsset)
        ensures
            r@ == lines_spec(text@),
    {
        let mut done: Vec<Vec<char>> = Vec::new();
        let mut open: Vec<char> = Vec::new();
        let mut i: usize = 0;
        while i < text.len()
            invariant
                0 <= i <= text@.len(),
                (done@.map_values(|w: Vec<char>| w@), open@) == scan_lines(text@.subrange(0, i as int)),
            decreases text@.len() - i,
        {
            let c = text[i];
            proof {
                let t = text@.subrange(0, i as int + 1);
                assert(t.drop_last() =~= text@.subrange(0, i as int));
                assert(t.last() == c);
            }
            if c == '\n' {
                let n = open.len();
                if n > 0 && open[n - 1] == '\r' {
                    open.pop();
                }
                let ghost before = done@;
                done.push(open);
                open = Vec::new();
                proof {
                    assert(done@.map_values(|w: Vec<char>| w@) =~= before.map_values(|w: Vec<char>| w@).push(
                        done@.last()@));
                }
            } else {
                open.push(c);
            }
            i += 1;
        }
        assert(text@.subrange(0, text@.len() as int) =~= text@);
        if open.len() > 0 {
            let ghost before = done@;
            done.push(open);
            assert(done@.map_values(|w: Vec<char>| w@) =~= before.map_values(|w: Vec<char>| w@).push(
                done@.last()@));
        }
        CustomAsset { words: done }
    }

    /// Number of words in the list.
    pub fn len(&self) -> (r: usize)
        ensures
            r == self@.len(),
    {
        self.words.len()
    }

    /// Whether the list holds at least one word, so that a game can start.
    pub fn is_ready(&self) -> (r: bool)
        ensures
            r == (self@.len() > 0),
    {
        self.words.len() > 0
    }

    /// Whether `word` is one of the words of the list.
    pub fn contains(&self, word: &Vec<char>) -> (r: bool)
        ensures
            r == self@.contains(word@),
    {
        let mut i: usize = 0;
        while i < self.words.len()
            invariant
                0 <= i <= self@.len(),
                forall|j: int| 0 <= j < i ==> self@[j] != word@,
            decreases self@.len() - i,
        {
            if same_word(&self.words[i], word) {
                assert(self@[i as int] == word@);
                return true;
            }
            i += 1;
        }
        false
    }

    /// A copy of the word at `index`.
    pub fn word(&self, index: usize) -> (r: Vec<char>)
        requires
            index < self@.len(),
        ensures
            r@ == self@[index as int],
    {
        copy_word(&self.words[index])
    }
}

/// A copy of `w`.
pub fn copy_word(w: &Vec<char>) -> (r: Vec<char>)
    ensures
        r@ == w@,
{
    let mut r: Vec<char> = Vec::new();
    let mut i: usize = 0;
    while i < w.len()
        invariant
            0 <= i <= w@.len(),
            r@ =~= w@.subrange(0, i as int),
        decreases w@.len() - i,
    {
        r.push(w[i]);
        i += 1;
    }
    r
}

} // verus!
