//! The console section formatter: renders a title as a bordered banner at
//! one of three nesting levels.  Each render function returns the lines of
//! the banner; writing them to a terminal is the caller's business.

use vstd::prelude::*;

verus! {

/// How much wider than its title a framed banner's border is.
pub const PADDING: usize = 4;

/// A run of `n` copies of the character `c`.
pub open spec fn fill(c: char, n: nat) -> Seq<char> {
    Seq::new(n, |i: int| c)
}

/// The width of the border drawn around a title.
pub open spec fn border_width(title: Seq<char>) -> nat {
    (title.len() + PADDING) as nat
}

/// The opening border line: `n` fill characters between `/` and `\`.
pub open spec fn top_border(c: char, n: nat) -> Seq<char> {
    seq!['/'] + fill(c, n) + seq!['\\']
}

/// The closing border line: `n` fill characters between `\` and `/`.
pub open spec fn bottom_border(c: char, n: nat) -> Seq<char> {
    seq!['\\'] + fill(c, n) + seq!['/']
}

/// The middle line of a framed banner: the title centered between two `|`,
/// with half of the padding as blanks on either side.
pub open spec fn framed_title(title: Seq<char>) -> Seq<char> {
    seq!['|', ' ', ' '] + title + seq![' ', ' ', '|']
}

/// A three-line banner around `title`, bordered with the character `c`.
pub open spec fn framed_banner(c: char, title: Seq<char>) -> Seq<Seq<char>> {
    seq![
        top_border(c, border_width(title)),
        framed_title(title),
        bottom_border(c, border_width(title)),
    ]
}

/// The top-level banner: asterisk borders.
pub open spec fn title_banner(title: Seq<char>) -> Seq<Seq<char>> {
    framed_banner('*', title)
}

/// The second-level banner: dash borders.
pub open spec fn section_banner(title: Seq<char>) -> Seq<Seq<char>> {
    framed_banner('-', title)
}

/// The third-level banner: the bare title over an `=` underline of the same
/// width.
pub open spec fn subtitle_banner(title: Seq<char>) -> Seq<Seq<char>> {
    seq![title, fill('=', title.len())]
}

/// The characters of each rendered line.
pub open spec fn lines_view(lines: Seq<String>) -> Seq<Seq<char>> {
    lines.map_values(|s: String| s@)
}

/// A string of `n` copies of the single character in `unit`.
fn repeated(unit: &str, n: usize) -> (s: String)
    requires
        unit@.len() == 1,
    ensures
        s@ == fill(unit@[0], n as nat),
{
    let mut s = String::new();
    proof {
        assert(s@ =~= fill(unit@[0], 0));
    }
    let mut i: usize = 0;
    while i < n
        invariant
            i <= n,
            unit@.len() == 1,
            s@ == fill(unit@[0], i as nat),
        decreases n - i,
    {
        s.append(unit);
        i = i + 1;
        proof {
            assert(s@ =~= fill(unit@[0], i as nat));
        }
    }
    s
}

/// The three lines of a banner around `title`, bordered with the single
/// character in `unit`.
fn render_framed(title: &str, unit: &str) -> (lines: Vec<String>)
    requires
        unit@.len() == 1,
        title@.len() + PADDING <= usize::MAX,
    ensures
        lines@.len() == 3,
        lines_view(lines@) == framed_banner(unit@[0], title@),
{
    let n = title.unicode_len();
    let border = repeated(unit, n + PADDING);

    let mut top = String::new();
    top.append("/");
    top.append(border.as_str());
    top.append("\\");

    let mut middle = String::new();
    middle.append("|  ");
    middle.append(title);
    middle.append("  |");

    let mut bottom = String::new();
    bottom.append("\\");
    bottom.append(border.as_str());
    bottom.append("/");

    proof {
        reveal_strlit("/");
        reveal_strlit("\\");
        reveal_strlit("|  ");
        reveal_strlit("  |");
        assert(top@ =~= top_border(unit@[0], border_width(title@)));
        assert(middle@ =~= framed_title(title@));
        assert(bottom@ =~= bottom_border(unit@[0], border_width(title@)));
    }

    let mut lines: Vec<String> = Vec::new();
    lines.push(top);
    lines.push(middle);
    lines.push(bottom);
    proof {
        assert(lines_view(lines@) =~= framed_banner(unit@[0], title@));
    }
    lines
}

/// Renders the top-level banner: a top border of `title.len() + PADDING`
/// asterisks between `/` and `\`, the centered title between `|`, and a
/// matching bottom border.
pub fn example_title(title: &str) -> (lines: Vec<String>)
    requires
        title@.len() + PADDING <= usize::MAX,
    ensures
        lines@.len() == 3,
        lines_view(lines@) == title_banner(title@),
{
    proof {
        reveal_strlit("*");
        assert("*"@ =~= seq!['*']);
    }
    render_framed(title, "*")
}

/// Renders the second-level banner, identical to [`example_title`] except
/// that the borders are drawn with dashes.
pub fn section_title(title: &str) -> (lines: Vec<String>)
    requires
        title@.len() + PADDING <= usize::MAX,
    ensures
        lines@.len() == 3,
        lines_view(lines@) == section_banner(title@),
{
    proof {
        reveal_strlit("-");
        assert("-"@ =~= seq!['-']);
    }
    render_framed(title, "-")
}

/// Renders the third-level banner: the title itself, then an underline of
/// exactly `title.len()` equals signs.
pub fn section_subtitle(title: &str) -> (lines: Vec<String>)
    ensures
        lines@.len() == 2,
        lines_view(lines@) == subtitle_banner(title@),
{
    proof {
        reveal_strlit("=");
        assert("="@ =~= seq!['=']);
    }
    let n = title.unicode_len();
    let text = title.to_owned();
    let underline = repeated("=", n);
    let mut lines: Vec<String> = Vec::new();
    lines.push(text);
    lines.push(underline);
    proof {
        assert(lines_view(lines@) =~= subtitle_banner(title@));
    }
    lines
}

/// A framed banner is exactly three lines, every line is at least `PADDING`
/// characters wider than the title, and the middle line carries the title
/// centered: the same amount of blank padding on each side, between `|`
/// frames.
pub proof fn lemma_framed_banner_shape(c: char, title: Seq<char>)
    ensures
        framed_banner(c, title).len() == 3,
        forall|i: int|
            0 <= i < 3 ==> #[trigger] framed_banner(c, title)[i].len() >= title.len() + PADDING,
        framed_banner(c, title)[1].subrange(3, 3 + title.len() as int) == title,
        framed_banner(c, title)[1].subrange(0, 3) == seq!['|', ' ', ' '],
        framed_banner(c, title)[1].subrange(
            3 + title.len() as int,
            6 + title.len() as int,
        ) == seq![' ', ' ', '|'],
{
    assert(framed_banner(c, title)[1].subrange(3, 3 + title.len() as int) =~= title);
    assert(framed_banner(c, title)[1].subrange(0, 3) =~= seq!['|', ' ', ' ']);
    assert(framed_banner(c, title)[1].subrange(3 + title.len() as int, 6 + title.len() as int)
        =~= seq![' ', ' ', '|']);
}

/// The top-level banner is three lines, each at least `PADDING` wider than
/// the title, with the title centered in the middle line.
pub proof fn lemma_title_banner_shape(title: Seq<char>)
    ensures
        title_banner(title).len() == 3,
        forall|i: int|
            0 <= i < 3 ==> #[trigger] title_banner(title)[i].len() >= title.len() + PADDING,
        title_banner(title)[1].subrange(3, 3 + title.len() as int) == title,
{
    lemma_framed_banner_shape('*', title);
}

/// The second-level banner has the same three-line shape as the top-level
/// one, with the section border character instead.
pub proof fn lemma_section_banner_shape(title: Seq<char>)
    ensures
        section_banner(title).len() == 3,
        forall|i: int|
            0 <= i < 3 ==> #[trigger] section_banner(title)[i].len() >= title.len() + PADDING,
        section_banner(title)[1].subrange(3, 3 + title.len() as int) == title,
        section_banner(title)[0] == top_border('-', border_width(title)),
{
    lemma_framed_banner_shape('-', title);
}

/// The third-level banner is two lines: the title itself, then a line of
/// exactly `title.len()` equals signs and nothing else.
pub proof fn lemma_subtitle_banner_shape(title: Seq<char>)
    ensures
        subtitle_banner(title).len() == 2,
        subtitle_banner(title)[0] == title,
        subtitle_banner(title)[1].len() == title.len(),
        forall|i: int|
            0 <= i < title.len() ==> #[trigger] subtitle_banner(title)[1][i] == '=',
{
}

/// Rendering is deterministic: identical titles yield byte-identical
/// banners at every level, so rendering the same text twice produces the
/// same lines both times.
pub proof fn lemma_render_repeatable(t1: Seq<char>, t2: Seq<char>)
    requires
        t1 == t2,
    ensures
        title_banner(t1) == title_banner(t2),
        section_banner(t1) == section_banner(t2),
        subtitle_banner(t1) == subtitle_banner(t2),
{
}

} // verus!
