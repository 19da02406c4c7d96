//! The unbounded two-sided tape.
//!
//! Positions are signed integers. Internally the tape keeps two
//! independently growable halves: `positive` covers positions 1, 2, 3, ...
//! and `negative` covers positions 0, -1, -2, ... (stored in reverse
//! logical order), so that a write arbitrarily far in either direction
//! only grows the relevant half. Any position that neither half reaches
//! reads as blank. Two tapes are equal when their materialized contents
//! agree after leading and trailing blanks are removed, independent of the
//! absolute offset the content sits at.

use core::ops::Range;
use vstd::prelude::*;
use vstd::string::StringExecFns;

use crate::universe::machine::Write;
use crate::universe::{symbol_chars, Symbol};

verus! {

/// The display text of a sequence of symbols: each symbol's text, left to
/// right, concatenated.
pub open spec fn symbols_chars(s: Seq<Symbol>) -> Seq<char>
    decreases s.len(),
{
    if s.len() == 0 {
        Seq::empty()
    } else {
        symbols_chars(s.drop_last()) + symbol_chars(s.last())
    }
}

/// The blank symbol, as a specification value.
pub open spec fn blank() -> Symbol {
    Symbol(None)
}

/// The tape as mathematics: its two halves as sequences. `positive` holds
/// positions 1, 2, 3, ... in order; `negative` holds positions 0, -1, -2,
/// ... in order, that is, in reverse logical order.
#[verifier::ext_equal]
pub ghost struct TapeModel {
    pub positive: Seq<Symbol>,
    pub negative: Seq<Symbol>,
}

/// The index inside its half at which a position is stored: position
/// `p >= 1` lives at `p - 1` of the positive half, position `p <= 0` at
/// `-p` of the negative half.
pub open spec fn half_index(pos: int) -> int {
    if pos >= 1 {
        pos - 1
    } else {
        -pos
    }
}

/// A half grown with blanks at its end to length at least `n`.
pub open spec fn padded(half: Seq<Symbol>, n: int) -> Seq<Symbol> {
    if n <= half.len() {
        half
    } else {
        half + Seq::new((n - half.len()) as nat, |i: int| blank())
    }
}

/// One half of the tape after a write effect at index `idx`: printing
/// stores the symbol, first padding any gap with blanks; erasing deletes
/// the cell outright (later cells shift down) when it exists and does
/// nothing otherwise; `NoEffect` changes nothing.
pub open spec fn half_written(half: Seq<Symbol>, write: Write, idx: int) -> Seq<Symbol> {
    match write {
        Write::Print(s) => padded(half, idx + 1).update(idx, s),
        Write::Erase => if idx < half.len() {
            half.remove(idx)
        } else {
            half
        },
        Write::NoEffect => half,
    }
}

impl TapeModel {
    /// The symbol at a position: what its half stores there, or blank
    /// where the half does not reach.
    pub open spec fn read_at(self, pos: int) -> Symbol {
        let half = if pos >= 1 {
            self.positive
        } else {
            self.negative
        };
        if half_index(pos) < half.len() {
            half[half_index(pos)]
        } else {
            blank()
        }
    }

    /// The tape after a write effect at a position.
    pub open spec fn written(self, write: Write, pos: int) -> TapeModel {
        if pos >= 1 {
            TapeModel {
                positive: half_written(self.positive, write, half_index(pos)),
                negative: self.negative,
            }
        } else {
            TapeModel {
                positive: self.positive,
                negative: half_written(self.negative, write, half_index(pos)),
            }
        }
    }

    /// The full materialized sequence, left to right. An empty tape gives
    /// the empty sequence; when only the positive half is materialized,
    /// the cell at position 0 shows as a single blank in front of it.
    pub open spec fn all(self) -> Seq<Symbol> {
        if self.positive.len() == 0 && self.negative.len() == 0 {
            Seq::empty()
        } else if self.negative.len() == 0 {
            seq![blank()] + self.positive
        } else {
            self.negative.reverse() + self.positive
        }
    }

    /// The window of positions `lo <= p < hi`, read one by one; positions
    /// outside the materialized halves are synthesized as blank.
    pub open spec fn window(self, lo: int, hi: int) -> Seq<Symbol> {
        if hi <= lo {
            Seq::empty()
        } else {
            Seq::new((hi - lo) as nat, |i: int| self.read_at(lo + i))
        }
    }
}

/// `s` with its leading blanks removed.
pub open spec fn trim_front(s: Seq<Symbol>) -> Seq<Symbol>
    decreases s.len(),
{
    if s.len() > 0 && s[0].spec_is_empty() {
        trim_front(s.drop_first())
    } else {
        s
    }
}

/// `s` with its trailing blanks removed.
pub open spec fn trim_back(s: Seq<Symbol>) -> Seq<Symbol>
    decreases s.len(),
{
    if s.len() > 0 && s.last().spec_is_empty() {
        trim_back(s.drop_last())
    } else {
        s
    }
}

/// `s` with leading and trailing blanks removed: the content on which
/// tape equality is defined.
pub open spec fn trimmed(s: Seq<Symbol>) -> Seq<Symbol> {
    trim_back(trim_front(s))
}

/// Removing `i` leading blanks at once is the same as trimming them one
/// by one.
proof fn lemma_trim_front_skips(s: Seq<Symbol>, i: int)
    requires
        0 <= i <= s.len(),
        forall|j: int| 0 <= j < i ==> s[j].spec_is_empty(),
    ensures
        trim_front(s) == trim_front(s.subrange(i, s.len() as int)),
    decreases i,
{
    if i > 0 {
        assert(s.drop_first() =~= s.subrange(1, s.len() as int));
        lemma_trim_front_skips(s.drop_first(), i - 1);
        assert(s.drop_first().subrange(i - 1, s.drop_first().len() as int) =~= s.subrange(
            i,
            s.len() as int,
        ));
    } else {
        assert(s.subrange(0, s.len() as int) =~= s);
    }
}

/// Removing `i` trailing blanks at once is the same as trimming them one
/// by one.
proof fn lemma_trim_back_skips(s: Seq<Symbol>, i: int)
    requires
        0 <= i <= s.len(),
        forall|j: int| s.len() - i <= j < s.len() ==> s[j].spec_is_empty(),
    ensures
        trim_back(s) == trim_back(s.subrange(0, s.len() - i)),
    decreases i,
{
    if i > 0 {
        assert(s.drop_last() =~= s.subrange(0, s.len() - 1));
        lemma_trim_back_skips(s.drop_last(), i - 1);
        assert(s.drop_last().subrange(0, s.drop_last().len() - (i - 1)) =~= s.subrange(
            0,
            s.len() - i,
        ));
    } else {
        assert(s.subrange(0, s.len() as int) =~= s);
    }
}

/// The index in the negative half at which position `pos <= 0` is stored.
fn neg_index(pos: isize) -> (idx: usize)
    requires
        pos <= 0,
    ensures
        idx == half_index(pos as int),
{
    if pos == 0 {
        0
    } else {
        (-(pos + 1)) as usize + 1
    }
}

/// Applies a write effect at `idx` inside one half, exactly as
/// `half_written` describes.
fn write_half(half: &mut Vec<Symbol>, write: Write, idx: usize)
    requires
        idx < usize::MAX,
    ensures
        final(half)@ == half_written(old(half)@, write, idx as int),
{
    match write {
        Write::Print(s) => {
            while half.len() <= idx
                invariant
                    idx < usize::MAX,
                    half@.len() >= old(half)@.len(),
                    half@.len() <= idx + 1 || half@ == old(half)@,
                    half@ == old(half)@ + Seq::new(
                        (half@.len() - old(half)@.len()) as nat,
                        |i: int| blank(),
                    ),
                decreases idx + 1 - half@.len(),
            {
                half.push(Symbol::empty());
                proof {
                    assert(half@ =~= old(half)@ + Seq::new(
                        (half@.len() - old(half)@.len()) as nat,
                        |i: int| blank(),
                    ));
                }
            }
            proof {
                assert(half@ =~= padded(old(half)@, idx + 1));
            }
            half[idx] = s;
        },
        Write::Erase => {
            if idx < half.len() {
                half.remove(idx);
            }
        },
        Write::NoEffect => {},
    }
}

/// The unbounded two-sided sequence of symbols the head reads and writes.
#[derive(Debug, Clone)]
pub struct Tape {
    positive: Vec<Symbol>,
    negative: Vec<Symbol>,
}

impl View for Tape {
    type V = TapeModel;

    closed spec fn view(&self) -> TapeModel {
        TapeModel { positive: self.positive@, negative: self.negative@ }
    }
}

impl Default for Tape {
    /// The empty tape: every position reads as blank.
    fn default() -> (t: Tape)
        ensures
            t@.positive.len() == 0,
            t@.negative.len() == 0,
    {
        Tape { positive: Vec::new(), negative: Vec::new() }
    }
}

impl Tape {
    /// A tape holding `symbols` at positions 1, 2, ... in order, with
    /// nothing materialized at position 0 or below.
    pub fn from_symbols(symbols: Vec<Symbol>) -> (t: Tape)
        ensures
            t@.positive == symbols@,
            t@.negative.len() == 0,
    {
        Tape { positive: symbols, negative: Vec::new() }
    }

    /// The stored symbol at `pos`, or blank if that position was never
    /// written.
    pub fn read(&self, pos: isize) -> (r: Symbol)
        ensures
            r == self@.read_at(pos as int),
    {
        if pos >= 1 {
            let idx = (pos as usize) - 1;
            if idx < self.positive.len() {
                self.positive[idx]
            } else {
                Symbol::empty()
            }
        } else {
            let idx = neg_index(pos);
            if idx < self.negative.len() {
                self.negative[idx]
            } else {
                Symbol::empty()
            }
        }
    }

    /// Applies a write effect at `pos`: printing stores the symbol there,
    /// growing the relevant half and padding any gap with blanks; erasing
    /// deletes the cell from its half when the position is within bounds
    /// and is a no-op otherwise; `NoEffect` never mutates the tape.
    pub fn write(&mut self, write: Write, pos: isize)
        ensures
            final(self)@ == old(self)@.written(write, pos as int),
    {
        if pos >= 1 {
            let idx = (pos as usize) - 1;
            write_half(&mut self.positive, write, idx);
        } else {
            let idx = neg_index(pos);
            write_half(&mut self.negative, write, idx);
        }
        proof {
            assert(self@ =~= old(self)@.written(write, pos as int));
        }
    }

    /// The full materialized sequence, left to right, for whole-tape
    /// display and equality checks. This never mutates the tape.
    pub fn all_symbols(&self) -> (r: Vec<Symbol>)
        ensures
            r@ == self@.all(),
    {
        if self.positive.len() == 0 && self.negative.len() == 0 {
            let empty: Vec<Symbol> = Vec::new();
            return empty;
        }
        let mut out: Vec<Symbol> = Vec::new();
        if self.negative.len() == 0 {
            out.push(Symbol::empty());
        } else {
            let mut i = self.negative.len();
            while i > 0
                invariant
                    i <= self.negative@.len(),
                    out@.len() == self.negative@.len() - i,
                    forall|k: int|
                        0 <= k < out@.len() ==> out@[k] == self.negative@[self.negative@.len() - 1
                            - k],
                decreases i,
            {
                i = i - 1;
                let s = self.negative[i];
                out.push(s);
            }
            proof {
                assert(out@ =~= self.negative@.reverse());
            }
        }
        let ghost prefix = out@;
        let mut j: usize = 0;
        while j < self.positive.len()
            invariant
                j <= self.positive@.len(),
                out@ == prefix + self.positive@.subrange(0, j as int),
            decreases self.positive@.len() - j,
        {
            let s = self.positive[j];
            out.push(s);
            j = j + 1;
            proof {
                assert(out@ =~= prefix + self.positive@.subrange(0, j as int));
            }
        }
        proof {
            assert(self.positive@.subrange(0, self.positive@.len() as int) =~= self.positive@);
            if self.negative@.len() == 0 {
                assert(prefix =~= seq![blank()]);
            }
            assert(out@ =~= self@.all());
        }
        out
    }

    /// The ordered sequence of symbols across the window of positions
    /// `range.start <= p < range.end`, a read-only projection; positions
    /// outside the materialized halves are synthesized as blank.
    pub fn symbols(&self, range: Range<isize>) -> (r: Vec<Symbol>)
        ensures
            r@ == self@.window(range.start as int, range.end as int),
    {
        let mut out: Vec<Symbol> = Vec::new();
        if range.end <= range.start {
            return out;
        }
        let mut p = range.start;
        while p < range.end
            invariant
                range.start <= p <= range.end,
                out@ == self@.window(range.start as int, p as int),
            decreases range.end as int - p as int,
        {
            let s = self.read(p);
            out.push(s);
            p = p + 1;
            proof {
                assert(out@ =~= self@.window(range.start as int, p as int));
            }
        }
        out
    }

    /// The display text of the whole tape: `all_symbols` rendered left to
    /// right as a concatenation of each symbol's text.
    pub fn render(&self) -> (r: String)
        ensures
            r@ == symbols_chars(self@.all()),
    {
        let all = self.all_symbols();
        let mut out = String::new();
        let mut i: usize = 0;
        while i < all.len()
            invariant
                i <= all@.len(),
                out@ == symbols_chars(all@.subrange(0, i as int)),
            decreases all@.len() - i,
        {
            let piece = all[i].render();
            out.append(piece.as_str());
            i = i + 1;
            proof {
                let prefix = all@.subrange(0, i as int);
                assert(prefix.drop_last() =~= all@.subrange(0, i - 1 as int));
                assert(out@ == symbols_chars(prefix));
            }
        }
        proof {
            assert(all@.subrange(0, all@.len() as int) =~= all@);
        }
        out
    }

    /// The trimmed content: `all_symbols` with leading and trailing
    /// blanks removed.
    pub fn trimmed_symbols(&self) -> (r: Vec<Symbol>)
        ensures
            r@ == trimmed(self@.all()),
    {
        let all = self.all_symbols();
        let mut from: usize = 0;
        while from < all.len() && all[from].is_empty()
            invariant
                from <= all@.len(),
                forall|j: int| 0 <= j < from ==> all@[j].spec_is_empty(),
            decreases all@.len() - from,
        {
            from = from + 1;
        }
        proof {
            lemma_trim_front_skips(all@, from as int);
        }
        let ghost fronted = all@.subrange(from as int, all@.len() as int);
        proof {
            assert(trim_front(all@) == fronted);
        }
        let mut to: usize = all.len();
        while to > from && all[to - 1].is_empty()
            invariant
                from <= to <= all@.len(),
                forall|j: int| 0 <= j < from ==> all@[j].spec_is_empty(),
                forall|j: int| to <= j < all@.len() ==> all@[j].spec_is_empty(),
            decreases to,
        {
            to = to - 1;
        }
        proof {
            lemma_trim_back_skips(fronted, all@.len() - to);
            assert(fronted.subrange(0, fronted.len() - (all@.len() - to)) =~= all@.subrange(
                from as int,
                to as int,
            ));
        }
        let mut out: Vec<Symbol> = Vec::new();
        let mut k = from;
        while k < to
            invariant
                from <= k <= to <= all@.len(),
                out@ == all@.subrange(from as int, k as int),
            decreases to - k,
        {
            let s = all[k];
            out.push(s);
            k = k + 1;
            proof {
                assert(out@ =~= all@.subrange(from as int, k as int));
            }
        }
        proof {
            assert(out@ =~= all@.subrange(from as int, to as int));
        }
        out
    }
}

/// Elementwise equality of two symbol vectors.
fn symbols_equal(a: &Vec<Symbol>, b: &Vec<Symbol>) -> (r: bool)
    ensures
        r == (a@ == b@),
{
    if a.len() != b.len() {
        assert(a@ != b@);
        return false;
    }
    let mut i: usize = 0;
    while i < a.len()
        invariant
            a@.len() == b@.len(),
            i <= a@.len(),
            forall|k: int| 0 <= k < i ==> a@[k] == b@[k],
        decreases a@.len() - i,
    {
        if a[i] != b[i] {
            assert(a@[i as int] != b@[i as int]);
            return false;
        }
        i = i + 1;
    }
    proof {
        assert(a@ =~= b@);
    }
    true
}

impl PartialEq for Tape {
    /// Two tapes are equal exactly when their materialized contents agree
    /// once leading and trailing blanks are removed, regardless of the
    /// absolute positions the content sits at.
    fn eq(&self, other: &Tape) -> (r: bool) {
        let a = self.trimmed_symbols();
        let b = other.trimmed_symbols();
        symbols_equal(&a, &b)
    }
}

impl vstd::std_specs::cmp::PartialEqSpecImpl for Tape {
    open spec fn obeys_eq_spec() -> bool {
        true
    }

    open spec fn eq_spec(&self, other: &Tape) -> bool {
        trimmed(self@.all()) == trimmed(other@.all())
    }
}

/// Printing a symbol and then reading the same position gives that symbol
/// back, whatever was on the tape before.
pub proof fn lemma_print_then_read(t: TapeModel, s: Symbol, pos: int)
    ensures
        t.written(Write::Print(s), pos).read_at(pos) == s,
{
}

/// Erasing a position behind which its half holds only blanks, and then
/// reading that position, gives blank. (Erasing deletes the cell, so when
/// a non-blank cell stands later in the same half, that cell shifts into
/// the erased position instead.)
pub proof fn lemma_erase_then_read(t: TapeModel, pos: int)
    requires
        pos >= 1 ==> forall|j: int|
            half_index(pos) < j < t.positive.len() ==> t.positive[j].spec_is_empty(),
        pos <= 0 ==> forall|j: int|
            half_index(pos) < j < t.negative.len() ==> t.negative[j].spec_is_empty(),
    ensures
        t.written(Write::Erase, pos).read_at(pos).spec_is_empty(),
{
    let half = if pos >= 1 {
        t.positive
    } else {
        t.negative
    };
    let idx = half_index(pos);
    if idx < half.len() {
        let shorter = half.remove(idx);
        if idx < shorter.len() {
            assert(shorter[idx] == half[idx + 1]);
            if pos >= 1 {
                assert(t.positive[idx + 1].spec_is_empty());
            } else {
                assert(t.negative[idx + 1].spec_is_empty());
            }
        }
    }
}

} // verus!
