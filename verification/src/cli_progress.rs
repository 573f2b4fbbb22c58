//! A single-line progress indicator: the text of the line for a completion
//! fraction and a description, with a bar of sub-character resolution.
//!
//! The caller asks the terminal for its width, hands it in, and writes the
//! line that comes back in place of the previous one.

use vstd::prelude::*;
use vstd::utf8::encode_utf8;
use crate::text::{
    append_decimal, append_repeated, append_zero_padded, chars_of, decimal, lemma_replace_once,
    replace, replace_all, stands_only_at, string_of, zero_padded,
};

verus! {

/// Width beyond which the line is not drawn, however wide the terminal is.
pub const DEFAULT_MAX_WIDTH: u16 = 79;

/// Glyph of a cell that is not yet filled.
pub const DEFAULT_EMPTY_CHAR: char = '-';

/// Length in bytes of the placeholder that the bar takes the place of.
pub const PROGRESS_PLACEHOLDER_LEN: usize = 10;

/// A completion fraction: `done` parts out of `total`.
#[derive(Clone, Copy, Debug, PartialEq, Eq)]
pub struct Fraction {
    pub done: usize,
    pub total: usize,
}

impl Fraction {
    /// A fraction lies between nothing and everything, and has parts.
    pub open spec fn wf(self) -> bool {
        self.done <= self.total && self.total > 0
    }

    /// `done` parts out of `total`, where that is a fraction.
    pub fn new(done: usize, total: usize) -> (f: Option<Fraction>)
        ensures
            f == if done <= total && total > 0 {
                Some(Fraction { done, total })
            } else {
                None
            },
    {
        if done <= total && total > 0 {
            Some(Fraction { done, total })
        } else {
            None
        }
    }

    /// Nothing done yet.
    pub fn zero() -> (f: Fraction)
        ensures
            f == (Fraction { done: 0, total: 1 }),
            f.wf(),
    {
        Fraction { done: 0, total: 1 }
    }

    /// The percentage in hundredths of a percent, rounded to the nearest
    /// hundredth, a tie going to the even one.
    pub open spec fn hundredths(self) -> nat {
        div_round_half_even((self.done * 10000) as nat, self.total as nat)
    }

    /// The percentage with two fractional digits, such as "33.33".
    pub open spec fn percentage_text(self) -> Seq<char> {
        decimal(self.hundredths() / 100) + seq!['.'] + zero_padded(self.hundredths() % 100, 2)
    }

    /// Whole cells that a bar of `budget` cells shows as filled.
    pub open spec fn filled_cells(self, budget: nat) -> nat {
        ((self.done * budget) / (self.total as int)) as nat
    }

    /// What is left over of the filled part behind its whole cells, in
    /// parts of `total` per cell.
    pub open spec fn partial_cell(self, budget: nat) -> nat {
        ((self.done * budget) % (self.total as int)) as nat
    }
}

/// `a / b` rounded to the nearest integer, a tie going up.
pub open spec fn div_round_half_up(a: nat, b: nat) -> nat {
    a / b + if 2 * (a % b) >= b {
        1nat
    } else {
        0nat
    }
}

/// `a / b` rounded to the nearest integer, a tie going to the even one.
pub open spec fn div_round_half_even(a: nat, b: nat) -> nat {
    let q = a / b;
    let twice = 2 * (a % b);
    if twice > b || (twice == b && q % 2 == 1) {
        q + 1
    } else {
        q
    }
}

/// Number of bytes that `text` takes in UTF-8, which is how lengths of the
/// line are counted.
pub open spec fn byte_len(text: Seq<char>) -> nat {
    encode_utf8(text).len()
}

/// Cells left for the bar: the terminal's width, capped at `max_width`,
/// less the rest of the line, which is `text_len` bytes including the
/// bar's placeholder. Never below zero.
pub open spec fn bar_budget(cols: u16, max_width: u16, text_len: nat) -> nat {
    let width: nat = if cols <= max_width {
        cols as nat
    } else {
        max_width as nat
    };
    let fixed: nat = if text_len >= PROGRESS_PLACEHOLDER_LEN {
        (text_len - PROGRESS_PLACEHOLDER_LEN) as nat
    } else {
        0
    };
    if width <= fixed {
        0
    } else {
        (width - fixed) as nat
    }
}

/// How the cells of a bar are shared out.
#[derive(Clone, Copy, Debug, PartialEq, Eq)]
pub struct BarLayout {
    /// Cells drawn with the fullest glyph.
    pub filled: usize,
    /// Index into the gradient of the glyph for the cell that is filled
    /// in part, where there is one.
    pub partial: Option<usize>,
    /// Cells drawn with the empty glyph.
    pub empty: usize,
}

impl BarLayout {
    /// The index of the partial glyph, as a number without bound.
    pub open spec fn partial_index(self) -> Option<nat> {
        match self.partial {
            Some(k) => Some(k as nat),
            None => None,
        }
    }

    /// Cells that the layout takes: one for the partial glyph, if any.
    pub open spec fn cells(self) -> nat {
        (self.filled + self.empty + if self.partial is Some {
            1nat
        } else {
            0nat
        }) as nat
    }
}

/// How the progress line looks.
pub struct ProgressBar {
    /// Width that the line keeps to on a wider terminal.
    pub max_width: u16,
    /// The line, with `{percentage}`, `{progress}` and `{description}`
    /// where the percentage, the bar and the description go.
    pub template: String,
    /// Glyphs for a filled cell, from the fullest to the emptiest: the
    /// first draws the cells that are filled, the others the one cell
    /// that is filled in part.
    pub full_chars: Vec<char>,
    /// Glyph for an empty cell.
    pub empty_char: char,
}

/// The gradient of eighth blocks, from a full cell down to one eighth.
pub fn unicode_bar_full_chars() -> (glyphs: Vec<char>)
    ensures
        glyphs@ == seq!['█', '▉', '▊', '▋', '▌', '▍', '▎', '▏'],
{
    vec!['█', '▉', '▊', '▋', '▌', '▍', '▎', '▏']
}

impl Default for ProgressBar {
    fn default() -> (bar: Self)
        ensures
            bar.max_width == DEFAULT_MAX_WIDTH,
            bar.template@ == "Working: {percentage}% [{progress}] {description}"@,
            bar.full_chars@ == seq!['#'],
            bar.empty_char == DEFAULT_EMPTY_CHAR,
            bar.wf(),
    {
        ProgressBar {
            max_width: DEFAULT_MAX_WIDTH,
            template: "Working: {percentage}% [{progress}] {description}".to_owned(),
            full_chars: vec!['#'],
            empty_char: DEFAULT_EMPTY_CHAR,
        }
    }
}

/// Where a cell is filled in part: the whole cells stop short of the
/// budget, so the partial glyph has a cell of its own.
pub proof fn lemma_filled_within_budget(f: Fraction, budget: nat)
    requires
        f.wf(),
    ensures
        f.filled_cells(budget) <= budget,
        f.partial_cell(budget) < f.total,
        f.partial_cell(budget) > 0 ==> f.filled_cells(budget) < budget,
        f.done == 0 ==> f.filled_cells(budget) == 0 && f.partial_cell(budget) == 0,
        f.done == f.total ==> f.filled_cells(budget) == budget && f.partial_cell(budget) == 0,
{
    let d = f.done as int;
    let t = f.total as int;
    let b = budget as int;
    assert(0 <= d * b <= t * b) by (nonlinear_arith)
        requires
            0 <= d <= t,
            0 <= b,
    ;
    vstd::arithmetic::div_mod::lemma_fundamental_div_mod(d * b, t);
    vstd::arithmetic::div_mod::lemma_mod_bound(d * b, t);
    let q = (d * b) / t;
    let r = (d * b) % t;
    assert(q <= b && (r > 0 ==> q < b)) by (nonlinear_arith)
        requires
            d * b == t * q + r,
            0 <= r < t,
            0 <= d * b <= t * b,
    ;
    assert(q >= 0) by (nonlinear_arith)
        requires
            d * b == t * q + r,
            0 <= r < t,
            0 <= d * b,
    ;
    if d == 0 {
        assert(d * b == 0) by (nonlinear_arith)
            requires
                d == 0,
        ;
    }
    if d == t {
        assert(q == b && r == 0) by (nonlinear_arith)
            requires
                t * b == t * q + r,
                0 <= r < t,
        ;
    }
}

/// A quotient below `steps`, rounded, does not pass `steps`.
pub proof fn lemma_rounded_share(part: nat, steps: nat, total: nat)
    requires
        part < total,
    ensures
        div_round_half_up(part * steps, total) <= steps,
{
    let a = (part * steps) as int;
    let t = total as int;
    let s = steps as int;
    assert(0 <= a <= (t - 1) * s) by (nonlinear_arith)
        requires
            a == part * steps,
            part <= t - 1,
            0 <= s,
            s == steps,
    ;
    vstd::arithmetic::div_mod::lemma_fundamental_div_mod(a, t);
    vstd::arithmetic::div_mod::lemma_mod_bound(a, t);
    let q = a / t;
    let r = a % t;
    assert(q + (if 2 * r >= t {
        1int
    } else {
        0int
    }) <= s) by (nonlinear_arith)
        requires
            a == t * q + r,
            0 <= r < t,
            0 <= a <= (t - 1) * s,
            0 <= s,
    ;
}

/// The percentage of `fraction` with two fractional digits.
pub fn percentage_chars(fraction: Fraction) -> (out: Vec<char>)
    requires
        fraction.wf(),
    ensures
        out@ == fraction.percentage_text(),
{
    let total = fraction.total as u128;
    let scaled: u128 = fraction.done as u128 * 10000;
    let q = scaled / total;
    let twice = 2 * (scaled % total);
    assert(q <= 10000) by (nonlinear_arith)
        requires
            q == scaled / total,
            scaled == fraction.done * 10000,
            0 <= fraction.done <= total,
            total > 0,
    ;
    let hundredths: usize = if twice > total || (twice == total && q % 2 == 1) {
        (q + 1) as usize
    } else {
        q as usize
    };
    let mut out: Vec<char> = Vec::new();
    append_decimal(&mut out, hundredths / 100);
    out.push('.');
    append_zero_padded(&mut out, hundredths % 100, 2);
    out
}

/// Cells left for the bar on a terminal of `cols` columns, beside a line
/// whose other text is `text_len` bytes long, placeholder included.
pub fn budget_for(cols: u16, max_width: u16, text_len: usize) -> (budget: usize)
    ensures
        budget == bar_budget(cols, max_width, text_len as nat),
        budget <= cols,
        budget <= max_width,
{
    let width: usize = if cols <= max_width {
        cols as usize
    } else {
        max_width as usize
    };
    let fixed: usize = if text_len >= PROGRESS_PLACEHOLDER_LEN {
        text_len - PROGRESS_PLACEHOLDER_LEN
    } else {
        0
    };
    if width <= fixed {
        0
    } else {
        width - fixed
    }
}

impl ProgressBar {
    /// A bar needs a glyph for its filled cells.
    pub open spec fn wf(self) -> bool {
        self.full_chars@.len() > 0
    }

    /// The glyph of the cell that is filled in part, as an index into the
    /// gradient: none where the filled part ends on a cell boundary or the
    /// gradient has a single glyph. The fuller that cell, the nearer the
    /// index lies to the front; the first glyph stands for a full cell
    /// only and is never chosen.
    pub open spec fn partial_glyph(self, budget: nat, f: Fraction) -> Option<nat> {
        let glyphs = self.full_chars@.len();
        if f.partial_cell(budget) > 0 && glyphs > 1 {
            Some(
                (glyphs - 1 - div_round_half_up(
                    f.partial_cell(budget) * ((glyphs - 2) as nat),
                    f.total as nat,
                )) as nat,
            )
        } else {
            None
        }
    }

    /// Cells that stay empty: what the budget leaves after the filled
    /// cells and the partial one.
    pub open spec fn empty_cells(self, budget: nat, f: Fraction) -> nat {
        (budget - f.filled_cells(budget) - if self.partial_glyph(budget, f) is Some {
            1int
        } else {
            0int
        }) as nat
    }

    /// The glyphs of a bar with the given layout.
    pub open spec fn bar_of(self, filled: nat, partial: Option<nat>, empty: nat) -> Seq<char> {
        Seq::new(filled, |i: int| self.full_chars@[0]) + (match partial {
            Some(k) => seq![self.full_chars@[k as int]],
            None => Seq::<char>::empty(),
        }) + Seq::new(empty, |i: int| self.empty_char)
    }

    /// The bar of `budget` cells for the fraction `f`.
    pub open spec fn bar(self, budget: nat, f: Fraction) -> Seq<char> {
        self.bar_of(f.filled_cells(budget), self.partial_glyph(budget, f), self.empty_cells(budget, f))
    }

    /// The template with the percentage and the description filled in,
    /// the bar's placeholder still in place.
    pub open spec fn preprocessed(self, f: Fraction, description: Seq<char>) -> Seq<char> {
        replace_all(
            replace_all(self.template@, "{percentage}"@, f.percentage_text()),
            "{description}"@,
            description,
        )
    }

    /// The line for a terminal of `cols` columns.
    pub open spec fn rendered(self, cols: u16, f: Fraction, description: Seq<char>) -> Seq<char> {
        let pre = self.preprocessed(f, description);
        let budget = bar_budget(cols, self.max_width, byte_len(pre));
        replace_all(pre, "{progress}"@, self.bar(budget, f))
    }

    /// Every cell of the budget is drawn exactly once, for any fraction;
    /// at nothing done all cells are empty, at everything done all are
    /// filled, and the partial glyph is never the first of the gradient.
    pub proof fn lemma_bar_fills_budget(self, budget: nat, f: Fraction)
        requires
            f.wf(),
        ensures
            f.filled_cells(budget) + self.empty_cells(budget, f) + (if self.partial_glyph(
                budget,
                f,
            ) is Some {
                1nat
            } else {
                0nat
            }) == budget,
            self.bar(budget, f).len() == budget,
            f.done == 0 ==> f.filled_cells(budget) == 0 && self.partial_glyph(budget, f) is None
                && self.empty_cells(budget, f) == budget,
            f.done == f.total ==> f.filled_cells(budget) == budget && self.partial_glyph(
                budget,
                f,
            ) is None && self.empty_cells(budget, f) == 0,
            self.partial_glyph(budget, f) matches Some(k) ==> 1 <= k < self.full_chars@.len(),
    {
        lemma_filled_within_budget(f, budget);
        if self.full_chars@.len() > 1 {
            lemma_rounded_share(
                f.partial_cell(budget),
                (self.full_chars@.len() - 2) as nat,
                f.total as nat,
            );
        }
    }

    /// Where the line, percentage and description filled in, holds the
    /// bar's placeholder at one place only, the bar takes that place and
    /// the rest of the line stays. A line whose other text takes a byte
    /// per character, and leaves room, is then exactly as wide as the
    /// terminal, or as `max_width` on a wider one.
    pub proof fn lemma_line_width(self, cols: u16, f: Fraction, description: Seq<char>, at: int)
        requires
            f.wf(),
            stands_only_at(self.preprocessed(f, description), "{progress}"@, at),
        ensures
            ({
                let pre = self.preprocessed(f, description);
                let budget = bar_budget(cols, self.max_width, byte_len(pre));
                let line = self.rendered(cols, f, description);
                let width = if cols <= self.max_width {
                    cols
                } else {
                    self.max_width
                };
                &&& line == pre.take(at) + self.bar(budget, f) + pre.skip(
                    at + PROGRESS_PLACEHOLDER_LEN,
                )
                &&& line.len() == pre.len() - PROGRESS_PLACEHOLDER_LEN + budget
                &&& byte_len(pre) == pre.len() && width + PROGRESS_PLACEHOLDER_LEN >= pre.len()
                    ==> line.len() == width
            }),
    {
        reveal_strlit("{progress}");
        let pre = self.preprocessed(f, description);
        let budget = bar_budget(cols, self.max_width, byte_len(pre));
        lemma_replace_once(pre, "{progress}"@, self.bar(budget, f), at);
        self.lemma_bar_fills_budget(budget, f);
    }

    /// Shares out the cells of a bar of `budget` cells for the fraction.
    pub fn layout(&self, budget: usize, fraction: Fraction) -> (l: BarLayout)
        requires
            fraction.wf(),
        ensures
            l.filled == fraction.filled_cells(budget as nat),
            l.partial_index() == self.partial_glyph(budget as nat, fraction),
            l.empty == self.empty_cells(budget as nat, fraction),
            l.cells() == budget,
            l.partial matches Some(k) ==> 1 <= k < self.full_chars@.len(),
    {
        proof {
            self.lemma_bar_fills_budget(budget as nat, fraction);
        }
        let total = fraction.total as u128;
        assert(fraction.done * budget <= 0xffff_ffff_ffff_ffff * 0xffff_ffff_ffff_ffff)
            by (nonlinear_arith)
            requires
                0 <= fraction.done <= 0xffff_ffff_ffff_ffff,
                0 <= budget <= 0xffff_ffff_ffff_ffff,
        ;
        let scaled: u128 = fraction.done as u128 * budget as u128;
        let filled = (scaled / total) as usize;
        let part = scaled % total;
        let glyphs = self.full_chars.len();
        let partial = if part > 0 && glyphs > 1 {
            let steps = (glyphs - 2) as u128;
            assert(part * steps <= 0xffff_ffff_ffff_ffff * 0xffff_ffff_ffff_ffff)
                by (nonlinear_arith)
                requires
                    0 <= part <= 0xffff_ffff_ffff_ffff,
                    0 <= steps <= 0xffff_ffff_ffff_ffff,
            ;
            let weighted: u128 = part * steps;
            let up: u128 = if 2 * (weighted % total) >= total {
                1
            } else {
                0
            };
            let back = weighted / total + up;
            proof {
                lemma_rounded_share(part as nat, steps as nat, total as nat);
            }
            Some(glyphs - 1 - back as usize)
        } else {
            None
        };
        let used = if partial.is_some() {
            filled + 1
        } else {
            filled
        };
        BarLayout { filled, partial, empty: budget - used }
    }

    /// The glyphs of a bar with the layout `l`.
    pub fn draw(&self, l: &BarLayout) -> (glyphs: Vec<char>)
        requires
            l.filled > 0 ==> self.wf(),
            l.partial matches Some(k) ==> k < self.full_chars@.len(),
        ensures
            glyphs@ == self.bar_of(l.filled as nat, l.partial_index(), l.empty as nat),
    {
        let mut glyphs: Vec<char> = Vec::new();
        if l.filled > 0 {
            append_repeated(&mut glyphs, self.full_chars[0], l.filled);
        }
        if let Some(k) = l.partial {
            glyphs.push(self.full_chars[k]);
        }
        append_repeated(&mut glyphs, self.empty_char, l.empty);
        glyphs
    }

    /// The line that shows `fraction` and `description` on a terminal of
    /// `cols` columns: the template with its placeholders filled in, the
    /// bar taking the columns that the rest of the line leaves.
    pub fn update(&self, cols: u16, fraction: Fraction, description: &str) -> (line: String)
        requires
            self.wf(),
            fraction.wf(),
        ensures
            line@ == self.rendered(cols, fraction, description@),
    {
        let template = chars_of(self.template.as_str());
        let percentage = percentage_chars(fraction);
        let with_percentage = replace(&template, &chars_of("{percentage}"), &percentage);
        let pre = replace(&with_percentage, &chars_of("{description}"), &chars_of(description));
        let pre_text = string_of(&pre);
        let budget = budget_for(cols, self.max_width, pre_text.as_str().as_bytes().len());
        let layout = self.layout(budget, fraction);
        let bar = self.draw(&layout);
        let line = replace(&pre, &chars_of("{progress}"), &bar);
        string_of(&line)
    }
}

} // verus!
