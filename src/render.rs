use vstd::prelude::*;
use crate::style::{bold, bold_italic, bold_italic_start, bold_start, is_plain_text, styled};

verus! {

/// The symbol that stands for the colon between minutes and seconds: the
/// character code of `:`.
pub const COLON: u8 = 58;

/// Whether the glyph table has a glyph for `sym`: the digits zero to nine
/// and the colon.
pub open spec fn is_symbol(sym: u8) -> bool {
    sym <= 9 || sym == COLON
}

/// The five rows of the glyph for `sym`, top to bottom.
pub open spec fn glyph(sym: u8) -> Seq<Seq<char>> {
    if sym == 0 {
        seq!["  ___  "@, " / _ \\ "@, "| | | |"@, "| |_| |"@, " \\___/ "@]
    } else if sym == 1 {
        seq![" _ "@, "/ |"@, "| |"@, "| |"@, "|_|"@]
    } else if sym == 2 {
        seq![" ____  "@, "|___ \\ "@, "  __) |"@, " / __/ "@, "|_____|"@]
    } else if sym == 3 {
        seq![" _____ "@, "|___ / "@, "  |_ \\ "@, " ___) |"@, "|____/ "@]
    } else if sym == 4 {
        seq![" _  _   "@, "| || |  "@, "| || |_ "@, "|__   _|"@, "   |_|  "@]
    } else if sym == 5 {
        seq![" ____  "@, "| ___| "@, "|___ \\ "@, " ___) |"@, "|____/ "@]
    } else if sym == 6 {
        seq!["  __   "@, " / /_  "@, "| '_ \\ "@, "| (_) |"@, " \\___/ "@]
    } else if sym == 7 {
        seq![" _____ "@, "|___  |"@, "   / / "@, "  / /  "@, " /_/   "@]
    } else if sym == 8 {
        seq!["  ___  "@, " ( _ ) "@, " / _ \\ "@, "| (_) |"@, " \\___/ "@]
    } else if sym == 9 {
        seq!["  ___   "@, " / _ \\  "@, "| (_) | "@, " \\__, | "@, "   /_/  "@]
    } else {
        seq![" _ "@, "(_)"@, " _ "@, "(_)"@, "   "@]
    }
}

/// Five texts side by side, one space between each two.
pub open spec fn joined(a: Seq<char>, b: Seq<char>, c: Seq<char>, d: Seq<char>, e: Seq<char>) -> Seq<char> {
    a + seq![' '] + b + seq![' '] + c + seq![' '] + d + seq![' '] + e
}

/// Whether `line` is row `x` of the time `mt mo : st so` drawn in glyphs:
/// each glyph's row in bold, the colon's also in italics, with one space
/// between each two.
pub open spec fn shows_row(line: Seq<char>, mt: u8, mo: u8, st: u8, so: u8, x: int) -> bool {
    exists|a: Seq<char>, b: Seq<char>, c: Seq<char>, d: Seq<char>, e: Seq<char>|
        #![trigger joined(a, b, c, d, e)]
        line == joined(a, b, c, d, e) && styled(a, glyph(mt)[x], bold_start())
            && styled(b, glyph(mo)[x], bold_start()) && styled(c, glyph(COLON)[x], bold_italic_start())
            && styled(d, glyph(st)[x], bold_start()) && styled(e, glyph(so)[x], bold_start())
}

/// Whether `lines` draw `secs` seconds as minutes and seconds in glyphs:
/// five lines, one per glyph row.
pub open spec fn shows_time(lines: Seq<Seq<char>>, secs: nat) -> bool {
    &&& lines.len() == 5
    &&& forall|x: int|
        0 <= x < 5 ==> shows_row(
            #[trigger] lines[x],
            (secs / 60 / 10) as u8,
            (secs / 60 % 10) as u8,
            (secs % 60 / 10) as u8,
            (secs % 60 % 10) as u8,
            x,
        )
}

/// Every glyph is a block of five rows of one width, and none of its rows
/// holds an escape character.
pub proof fn lemma_glyph_shape(sym: u8)
    ensures
        glyph(sym).len() == 5,
        forall|x: int| 0 <= x < 5 ==> is_plain_text(#[trigger] glyph(sym)[x]),
        forall|x: int| 0 <= x < 5 ==> (#[trigger] glyph(sym)[x]).len() == glyph(sym)[0].len(),
{
    reveal_strlit("   ");
    reveal_strlit("   / / ");
    reveal_strlit("   /_/  ");
    reveal_strlit("   |_|  ");
    reveal_strlit("  / /  ");
    reveal_strlit("  __   ");
    reveal_strlit("  __) |");
    reveal_strlit("  ___  ");
    reveal_strlit("  ___   ");
    reveal_strlit("  |_ \\ ");
    reveal_strlit(" ( _ ) ");
    reveal_strlit(" / /_  ");
    reveal_strlit(" / _ \\ ");
    reveal_strlit(" / _ \\  ");
    reveal_strlit(" / __/ ");
    reveal_strlit(" /_/   ");
    reveal_strlit(" \\__, | ");
    reveal_strlit(" \\___/ ");
    reveal_strlit(" _ ");
    reveal_strlit(" _  _   ");
    reveal_strlit(" ___) |");
    reveal_strlit(" ____  ");
    reveal_strlit(" _____ ");
    reveal_strlit("(_)");
    reveal_strlit("/ |");
    reveal_strlit("| '_ \\ ");
    reveal_strlit("| (_) |");
    reveal_strlit("| (_) | ");
    reveal_strlit("| ___| ");
    reveal_strlit("| |");
    reveal_strlit("| | | |");
    reveal_strlit("| |_| |");
    reveal_strlit("| || |  ");
    reveal_strlit("| || |_ ");
    reveal_strlit("|__   _|");
    reveal_strlit("|___  |");
    reveal_strlit("|___ / ");
    reveal_strlit("|___ \\ ");
    reveal_strlit("|____/ ");
    reveal_strlit("|_____|");
    reveal_strlit("|_|");
}

/// Joins five texts with one space between each two.
pub fn join_row(a: &str, b: &str, c: &str, d: &str, e: &str) -> (r: String)
    ensures
        r@ == joined(a@, b@, c@, d@, e@),
{
    proof {
        reveal_strlit(" ");
    }
    let mut r = String::new();
    r.append(a);
    r.append(" ");
    r.append(b);
    r.append(" ");
    r.append(c);
    r.append(" ");
    r.append(d);
    r.append(" ");
    r.append(e);
    assert(r@ =~= joined(a@, b@, c@, d@, e@));
    r
}

/// A glyph: five rows of text, top to bottom.
pub struct Font<'a>(pub [&'a str; 5]);

impl<'a> View for Font<'a> {
    type V = Seq<Seq<char>>;

    open spec fn view(&self) -> Seq<Seq<char>> {
        self.0@.map_values(|s: &'a str| s@)
    }
}

impl<'a> Font<'a> {
    /// A glyph of the rows `s`.
    pub fn new(s: [&'a str; 5]) -> (r: Font<'a>)
        ensures
            r.0@ == s@,
    {
        Font(s)
    }
}

/// The table of glyphs that draws the time left.
pub struct Renderer;

impl Renderer {
    /// The glyph table.
    pub fn new() -> (r: Renderer) {
        Renderer
    }

    /// The glyph for `num`, a digit or the colon: the table has no other.
    pub fn to_ascii(&self, num: u8) -> (r: Font<'static>)
        requires
            is_symbol(num),
        ensures
            r@ == glyph(num),
            r@.len() == 5,
            forall|x: int| 0 <= x < 5 ==> (#[trigger] r@[x]).len() == r@[0].len(),
    {
        let rows: [&'static str; 5] = if num == 0 {
            ["  ___  ", " / _ \\ ", "| | | |", "| |_| |", " \\___/ "]
        } else if num == 1 {
            [" _ ", "/ |", "| |", "| |", "|_|"]
        } else if num == 2 {
            [" ____  ", "|___ \\ ", "  __) |", " / __/ ", "|_____|"]
        } else if num == 3 {
            [" _____ ", "|___ / ", "  |_ \\ ", " ___) |", "|____/ "]
        } else if num == 4 {
            [" _  _   ", "| || |  ", "| || |_ ", "|__   _|", "   |_|  "]
        } else if num == 5 {
            [" ____  ", "| ___| ", "|___ \\ ", " ___) |", "|____/ "]
        } else if num == 6 {
            ["  __   ", " / /_  ", "| '_ \\ ", "| (_) |", " \\___/ "]
        } else if num == 7 {
            [" _____ ", "|___  |", "   / / ", "  / /  ", " /_/   "]
        } else if num == 8 {
            ["  ___  ", " ( _ ) ", " / _ \\ ", "| (_) |", " \\___/ "]
        } else if num == 9 {
            ["  ___   ", " / _ \\  ", "| (_) | ", " \\__, | ", "   /_/  "]
        } else if num == COLON {
            [" _ ", "(_)", " _ ", "(_)", "   "]
        } else {
            unreached()
        };
        let f = Font::new(rows);
        assert(f@ =~= glyph(num));
        proof {
            lemma_glyph_shape(num);
        }
        f
    }

    /// The glyphs of a time shown as four digits, in the order in which they
    /// stand: minute tens, minute ones, the colon, second tens, second ones.
    pub fn string_fragments(&self, min_ten: u8, min_one: u8, sec_ten: u8, sec_one: u8) -> (r: [Font<'static>; 5])
        requires
            min_ten <= 9,
            min_one <= 9,
            sec_ten <= 9,
            sec_one <= 9,
        ensures
            r[0]@ == glyph(min_ten),
            r[1]@ == glyph(min_one),
            r[2]@ == glyph(COLON),
            r[3]@ == glyph(sec_ten),
            r[4]@ == glyph(sec_one),
    {
        let mt_str = self.to_ascii(min_ten);
        let mo_str = self.to_ascii(min_one);
        let colon = self.to_ascii(COLON);
        let st_str = self.to_ascii(sec_ten);
        let so_str = self.to_ascii(sec_one);
        [mt_str, mo_str, colon, st_str, so_str]
    }

    /// The time `mt mo : st so` drawn as five lines, one per row of the
    /// glyphs, each glyph in bold and the colon also in italics.
    pub fn frame(&self, mt: u8, mo: u8, st: u8, so: u8) -> (r: Vec<String>)
        requires
            mt <= 9,
            mo <= 9,
            st <= 9,
            so <= 9,
        ensures
            r.len() == 5,
            forall|x: int| 0 <= x < 5 ==> shows_row(#[trigger] r[x]@, mt, mo, st, so, x),
    {
        let fragments = self.string_fragments(mt, mo, st, so);
        proof {
            lemma_glyph_shape(mt);
            lemma_glyph_shape(mo);
            lemma_glyph_shape(COLON);
            lemma_glyph_shape(st);
            lemma_glyph_shape(so);
        }
        let mut lines: Vec<String> = Vec::new();
        let mut x: usize = 0;
        while x < 5
            invariant
                x <= 5,
                lines.len() == x,
                fragments[0]@ == glyph(mt),
                fragments[1]@ == glyph(mo),
                fragments[2]@ == glyph(COLON),
                fragments[3]@ == glyph(st),
                fragments[4]@ == glyph(so),
                forall|y: int| 0 <= y < 5 ==> is_plain_text(#[trigger] glyph(mt)[y]),
                forall|y: int| 0 <= y < 5 ==> is_plain_text(#[trigger] glyph(mo)[y]),
                forall|y: int| 0 <= y < 5 ==> is_plain_text(#[trigger] glyph(COLON)[y]),
                forall|y: int| 0 <= y < 5 ==> is_plain_text(#[trigger] glyph(st)[y]),
                forall|y: int| 0 <= y < 5 ==> is_plain_text(#[trigger] glyph(so)[y]),
                forall|y: int| 0 <= y < x ==> shows_row(#[trigger] lines[y]@, mt, mo, st, so, y),
            decreases 5 - x,
        {
            let a = bold(fragments[0].0[x]);
            let b = bold(fragments[1].0[x]);
            let c = bold_italic(fragments[2].0[x]);
            let d = bold(fragments[3].0[x]);
            let e = bold(fragments[4].0[x]);
            let line = join_row(a.as_str(), b.as_str(), c.as_str(), d.as_str(), e.as_str());
            assert(line@ == joined(a@, b@, c@, d@, e@));
            lines.push(line);
            x = x + 1;
        }
        lines
    }
}

} // verus!
