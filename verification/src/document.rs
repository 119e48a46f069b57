//! Document structure: front matter, the symbol-legend section fenced by
//! dash lines, the body, and the colophon starting at the source line.

use vstd::prelude::*;

use crate::strutil::{chars_to_string, ends_with_pat, eq_pat, spec_ends_with, spec_starts_with,
    starts_with_pat, str_to_chars};

verus! {

/// The views of a list of string slices.
pub open spec fn views_of(ls: Seq<&str>) -> Seq<Seq<char>> {
    Seq::new(ls.len(), |i: int| ls[i]@)
}

/// The body lines from position `i` in reading state `st`: `0` inside the
/// front matter, `1` just after it, `2` inside the fenced legend, `3`
/// inside the body. The body ends at the colophon line or the explicit
/// body-end directive.
pub open spec fn spec_body_lines(lv: Seq<Seq<char>>, i: int, st: int) -> Seq<Seq<char>>
    decreases lv.len() - i,
    when 0 <= i
{
    if i >= lv.len() {
        Seq::empty()
    } else {
        let l = lv[i];
        if st == 0 {
            spec_body_lines(lv, i + 1, if l.len() == 0 { 1int } else { 0int })
        } else if st == 1 {
            if spec_starts_with(l, "---"@) {
                spec_body_lines(lv, i + 1, 2)
            } else if l.len() == 0 {
                spec_body_lines(lv, i + 1, 1)
            } else if spec_starts_with(l, "底本："@) {
                Seq::empty()
            } else {
                seq![l] + spec_body_lines(lv, i + 1, 3)
            }
        } else if st == 2 {
            spec_body_lines(lv, i + 1, if spec_starts_with(l, "---"@) { 3int } else { 2int })
        } else {
            if spec_starts_with(l, "底本："@) || l == "［＃本文終わり］"@ {
                Seq::empty()
            } else {
                seq![l] + spec_body_lines(lv, i + 1, 3)
            }
        }
    }
}

/// Extract the body lines of a document.
pub fn extract_body_lines<'a>(lines: &Vec<&'a str>) -> (r: Vec<&'a str>)
    ensures
        views_of(r@) == spec_body_lines(views_of(lines@), 0, 0),
{
    let ghost lv = views_of(lines@);
    let n = lines.len();
    let mut r: Vec<&'a str> = Vec::new();
    let mut st: u8 = 0;
    let mut i: usize = 0;
    let dash = str_to_chars("---");
    let teihon = str_to_chars("底本：");
    let body_end = str_to_chars("［＃本文終わり］");
    proof {
        assert(views_of(r@) =~= Seq::<Seq<char>>::empty());
    }
    while i < n
        invariant
            i <= n,
            n == lines@.len(),
            lv == views_of(lines@),
            lv.len() == n,
            st <= 3,
            dash@ == "---"@,
            teihon@ == "底本："@,
            body_end@ == "［＃本文終わり］"@,
            spec_body_lines(lv, 0, 0) == views_of(r@) + spec_body_lines(lv, i as int, st as int),
        decreases n - i,
    {
        let ghost before = views_of(r@);
        let line = lines[i];
        let cv = str_to_chars(line);
        proof {
            assert(lv[i as int] == lines@[i as int]@);
            assert(cv@ == lv[i as int]);
        }
        if st == 0 {
            if cv.len() == 0 {
                st = 1;
            }
        } else if st == 1 {
            if starts_with_pat(&cv, &dash) {
                st = 2;
            } else if cv.len() == 0 {
            } else if starts_with_pat(&cv, &teihon) {
                proof {
                    assert(views_of(r@) + spec_body_lines(lv, i as int, st as int) =~= views_of(
                        r@,
                    ));
                }
                return r;
            } else {
                r.push(line);
                st = 3;
                proof {
                    assert(views_of(r@) =~= before.push(lv[i as int]));
                    assert(before + (seq![lv[i as int]] + spec_body_lines(lv, i as int + 1, 3))
                        =~= views_of(r@) + spec_body_lines(lv, i as int + 1, 3));
                }
            }
        } else if st == 2 {
            if starts_with_pat(&cv, &dash) {
                st = 3;
            }
        } else {
            if starts_with_pat(&cv, &teihon) || eq_pat(&cv, &body_end) {
                proof {
                    assert(views_of(r@) + spec_body_lines(lv, i as int, st as int) =~= views_of(
                        r@,
                    ));
                }
                return r;
            }
            r.push(line);
            proof {
                assert(views_of(r@) =~= before.push(lv[i as int]));
                assert(before + (seq![lv[i as int]] + spec_body_lines(lv, i as int + 1, 3))
                    =~= views_of(r@) + spec_body_lines(lv, i as int + 1, 3));
            }
        }
        i += 1;
    }
    proof {
        assert(spec_body_lines(lv, n as int, st as int) =~= Seq::<Seq<char>>::empty());
        assert(views_of(r@) + spec_body_lines(lv, n as int, st as int) =~= views_of(r@));
    }
    r
}

/// The lines between the body-end directive and the colophon.
pub open spec fn spec_after_text_lines(lv: Seq<Seq<char>>, i: int, inside: bool) -> Seq<Seq<char>>
    decreases lv.len() - i,
    when 0 <= i
{
    if i >= lv.len() {
        Seq::empty()
    } else {
        let l = lv[i];
        if l == "［＃本文終わり］"@ {
            spec_after_text_lines(lv, i + 1, true)
        } else if inside {
            if spec_starts_with(l, "底本："@) {
                Seq::empty()
            } else {
                seq![l] + spec_after_text_lines(lv, i + 1, true)
            }
        } else {
            spec_after_text_lines(lv, i + 1, false)
        }
    }
}

/// Extract the closing text between the body-end directive and the
/// colophon.
pub fn extract_after_text_lines<'a>(lines: &Vec<&'a str>) -> (r: Vec<&'a str>)
    ensures
        views_of(r@) == spec_after_text_lines(views_of(lines@), 0, false),
{
    let ghost lv = views_of(lines@);
    let n = lines.len();
    let mut r: Vec<&'a str> = Vec::new();
    let mut inside = false;
    let mut i: usize = 0;
    let teihon = str_to_chars("底本：");
    let body_end = str_to_chars("［＃本文終わり］");
    proof {
        assert(views_of(r@) =~= Seq::<Seq<char>>::empty());
    }
    while i < n
        invariant
            i <= n,
            n == lines@.len(),
            lv == views_of(lines@),
            lv.len() == n,
            teihon@ == "底本："@,
            body_end@ == "［＃本文終わり］"@,
            spec_after_text_lines(lv, 0, false) == views_of(r@) + spec_after_text_lines(
                lv,
                i as int,
                inside,
            ),
        decreases n - i,
    {
        let ghost before = views_of(r@);
        let line = lines[i];
        let cv = str_to_chars(line);
        proof {
            assert(lv[i as int] == lines@[i as int]@);
        }
        if eq_pat(&cv, &body_end) {
            inside = true;
        } else if inside {
            if starts_with_pat(&cv, &teihon) {
                proof {
                    assert(views_of(r@) + spec_after_text_lines(lv, i as int, true) =~= views_of(
                        r@,
                    ));
                }
                return r;
            }
            r.push(line);
            proof {
                assert(views_of(r@) =~= before.push(lv[i as int]));
                assert(before + (seq![lv[i as int]] + spec_after_text_lines(lv, i as int + 1, true))
                    =~= views_of(r@) + spec_after_text_lines(lv, i as int + 1, true));
            }
        }
        i += 1;
    }
    proof {
        assert(spec_after_text_lines(lv, n as int, inside) =~= Seq::<Seq<char>>::empty());
        assert(views_of(r@) + spec_after_text_lines(lv, n as int, inside) =~= views_of(r@));
    }
    r
}

/// The colophon: everything from the first colophon line on.
pub open spec fn spec_biblio_lines(lv: Seq<Seq<char>>, i: int, inside: bool) -> Seq<Seq<char>>
    decreases lv.len() - i,
    when 0 <= i
{
    if i >= lv.len() {
        Seq::empty()
    } else {
        let l = lv[i];
        let now = inside || spec_starts_with(l, "底本："@);
        if now {
            seq![l] + spec_biblio_lines(lv, i + 1, true)
        } else {
            spec_biblio_lines(lv, i + 1, false)
        }
    }
}

/// Extract the colophon lines.
pub fn extract_bibliographical_lines<'a>(lines: &Vec<&'a str>) -> (r: Vec<&'a str>)
    ensures
        views_of(r@) == spec_biblio_lines(views_of(lines@), 0, false),
{
    let ghost lv = views_of(lines@);
    let n = lines.len();
    let mut r: Vec<&'a str> = Vec::new();
    let mut inside = false;
    let mut i: usize = 0;
    let teihon = str_to_chars("底本：");
    proof {
        assert(views_of(r@) =~= Seq::<Seq<char>>::empty());
    }
    while i < n
        invariant
            i <= n,
            n == lines@.len(),
            lv == views_of(lines@),
            lv.len() == n,
            teihon@ == "底本："@,
            spec_biblio_lines(lv, 0, false) == views_of(r@) + spec_biblio_lines(
                lv,
                i as int,
                inside,
            ),
        decreases n - i,
    {
        let ghost before = views_of(r@);
        let line = lines[i];
        let cv = str_to_chars(line);
        proof {
            assert(lv[i as int] == lines@[i as int]@);
        }
        if !inside && starts_with_pat(&cv, &teihon) {
            inside = true;
        }
        if inside {
            r.push(line);
            proof {
                assert(views_of(r@) =~= before.push(lv[i as int]));
                assert(before + (seq![lv[i as int]] + spec_biblio_lines(lv, i as int + 1, true))
                    =~= views_of(r@) + spec_biblio_lines(lv, i as int + 1, true));
            }
        }
        i += 1;
    }
    proof {
        assert(spec_biblio_lines(lv, n as int, inside) =~= Seq::<Seq<char>>::empty());
        assert(views_of(r@) + spec_biblio_lines(lv, n as int, inside) =~= views_of(r@));
    }
    r
}

/// Kind of a person named in the front matter, told by the line's suffix.
#[derive(Debug, Clone, Copy, PartialEq, Eq, Structural)]
pub enum PersonType {
    /// The author: no role suffix.
    Author,
    /// A translator.
    Translator,
    /// An editor.
    Editor,
    /// An editor-translator.
    Henyaku,
}

/// The person kind a front-matter line names.
pub open spec fn spec_person_type(s: Seq<char>) -> PersonType {
    if spec_ends_with(s, "編訳"@) {
        PersonType::Henyaku
    } else if spec_ends_with(s, "校訂"@) || spec_ends_with(s, "編"@) || spec_ends_with(
        s,
        "編集"@,
    ) {
        PersonType::Editor
    } else if spec_ends_with(s, "訳"@) {
        PersonType::Translator
    } else {
        PersonType::Author
    }
}

/// The person kind a front-matter line names.
pub fn detect_person_type(s: &str) -> (r: PersonType)
    ensures
        r == spec_person_type(s@),
{
    let cv = str_to_chars(s);
    detect_person_type_chars(&cv)
}

fn detect_person_type_chars(cv: &Vec<char>) -> (r: PersonType)
    ensures
        r == spec_person_type(cv@),
{
    if ends_with_pat(cv, &str_to_chars("編訳")) {
        PersonType::Henyaku
    } else if ends_with_pat(cv, &str_to_chars("校訂")) || ends_with_pat(cv, &str_to_chars("編"))
        || ends_with_pat(cv, &str_to_chars("編集")) {
        PersonType::Editor
    } else if ends_with_pat(cv, &str_to_chars("訳")) {
        PersonType::Translator
    } else {
        PersonType::Author
    }
}

/// Whether every character of the line belongs to the sets an original
/// (non-Japanese) title is set in.
pub open spec fn spec_is_original_title(s: Seq<char>) -> bool {
    forall|i: int| 0 <= i < s.len() ==> is_original_title_char(#[trigger] s[i])
}

/// ASCII, CJK punctuation, fullwidth forms, Greek or Cyrillic.
pub open spec fn is_original_title_char(c: char) -> bool {
    let u = c as u32;
    u < 0x80 || (0x3000 <= u && u <= 0x303F) || (0xFF00 <= u && u <= 0xFFEF) || (0x0370 <= u
        && u <= 0x03FF) || (0x0400 <= u && u <= 0x04FF)
}

/// Whether the line is set entirely in original-title character sets.
pub fn is_original_title(s: &str) -> (r: bool)
    ensures
        r == spec_is_original_title(s@),
{
    let cv = str_to_chars(s);
    is_original_title_chars(&cv)
}

fn is_original_title_chars(cv: &Vec<char>) -> (r: bool)
    ensures
        r == spec_is_original_title(cv@),
{
    let mut i: usize = 0;
    while i < cv.len()
        invariant
            i <= cv@.len(),
            forall|k: int| 0 <= k < i ==> is_original_title_char(#[trigger] cv@[k]),
        decreases cv@.len() - i,
    {
        let u = cv[i] as u32;
        let ok = u < 0x80 || (0x3000 <= u && u <= 0x303F) || (0xFF00 <= u && u <= 0xFFEF)
            || (0x0370 <= u && u <= 0x03FF) || (0x0400 <= u && u <= 0x04FF);
        if !ok {
            return false;
        }
        i += 1;
    }
    true
}

/// Mathematical model of the front-matter fields.
#[verifier::ext_equal]
pub struct HeaderInfoM {
    /// Title.
    pub title: Option<Seq<char>>,
    /// Author.
    pub author: Option<Seq<char>>,
    /// Subtitle.
    pub subtitle: Option<Seq<char>>,
    /// Original-language title.
    pub original_title: Option<Seq<char>>,
    /// Original-language subtitle.
    pub original_subtitle: Option<Seq<char>>,
    /// Translator.
    pub translator: Option<Seq<char>>,
    /// Editor.
    pub editor: Option<Seq<char>>,
    /// Editor-translator.
    pub henyaku: Option<Seq<char>>,
}

/// The front-matter fields of a document.
#[derive(Debug, Clone, PartialEq)]
pub struct HeaderInfo {
    /// Title.
    pub title: Option<String>,
    /// Author.
    pub author: Option<String>,
    /// Subtitle.
    pub subtitle: Option<String>,
    /// Original-language title.
    pub original_title: Option<String>,
    /// Original-language subtitle.
    pub original_subtitle: Option<String>,
    /// Translator.
    pub translator: Option<String>,
    /// Editor.
    pub editor: Option<String>,
    /// Editor-translator.
    pub henyaku: Option<String>,
}

impl HeaderInfo {
    /// The model of these fields.
    pub open spec fn model(self) -> HeaderInfoM {
        HeaderInfoM {
            title: crate::node::opt_model(self.title),
            author: crate::node::opt_model(self.author),
            subtitle: crate::node::opt_model(self.subtitle),
            original_title: crate::node::opt_model(self.original_title),
            original_subtitle: crate::node::opt_model(self.original_subtitle),
            translator: crate::node::opt_model(self.translator),
            editor: crate::node::opt_model(self.editor),
            henyaku: crate::node::opt_model(self.henyaku),
        }
    }

    /// The page title: the fields joined by single spaces, author and
    /// roles first, then the titles.
    pub fn html_title(&self) -> (r: String)
        ensures
            r@ == spec_html_title(self.model()),
    {
        let ghost m = self.model();
        let ghost order: Seq<Option<Seq<char>>> = seq![
            m.author, m.translator, m.editor, m.henyaku, m.title, m.original_title, m.subtitle,
            m.original_subtitle,
        ];
        let mut r = String::new();
        proof {
            assert(r@ =~= spec_join_fields(order, 0));
        }
        append_field(&mut r, &self.author);
        proof {
            assert(r@ == spec_join_fields(order, 1));
        }
        append_field(&mut r, &self.translator);
        proof {
            assert(r@ == spec_join_fields(order, 2));
        }
        append_field(&mut r, &self.editor);
        proof {
            assert(r@ == spec_join_fields(order, 3));
        }
        append_field(&mut r, &self.henyaku);
        proof {
            assert(r@ == spec_join_fields(order, 4));
        }
        append_field(&mut r, &self.title);
        proof {
            assert(r@ == spec_join_fields(order, 5));
        }
        append_field(&mut r, &self.original_title);
        proof {
            assert(r@ == spec_join_fields(order, 6));
        }
        append_field(&mut r, &self.subtitle);
        proof {
            assert(r@ == spec_join_fields(order, 7));
        }
        append_field(&mut r, &self.original_subtitle);
        proof {
            assert(r@ == spec_join_fields(order, 8));
        }
        r
    }
}

/// Append one present field, space-separated.
fn append_field(r: &mut String, o: &Option<String>)
    ensures
        final(r)@ == match crate::node::opt_model(*o) {
            Some(x) => if old(r)@.len() == 0 {
                x
            } else {
                old(r)@ + seq![' '] + x
            },
            None => old(r)@,
        },
{
    match o {
        Some(x) => {
            if r.as_str().unicode_len() > 0 {
                proof {
                    reveal_strlit(" ");
                }
                r.append(" ");
            }
            r.append(x.as_str());
            proof {
                if old(r)@.len() == 0 {
                    assert(r@ =~= x@);
                }
            }
        },
        None => {},
    }
}

/// The fields present among the first `i`, joined by single spaces.
pub open spec fn spec_join_fields(order: Seq<Option<Seq<char>>>, i: int) -> Seq<char>
    decreases i,
{
    if i <= 0 {
        Seq::empty()
    } else {
        let before = spec_join_fields(order, i - 1);
        match order[i - 1] {
            Some(x) => if before.len() == 0 {
                x
            } else {
                before + seq![' '] + x
            },
            None => before,
        }
    }
}

/// The page title of front-matter fields.
pub open spec fn spec_html_title(m: HeaderInfoM) -> Seq<char> {
    spec_join_fields(
        seq![
            m.author, m.translator, m.editor, m.henyaku, m.title, m.original_title, m.subtitle,
            m.original_subtitle,
        ],
        8,
    )
}

/// The front-matter fields read from the leading lines: how the second and
/// later lines are read depends on how many lines the front matter has.
pub open spec fn spec_header_info(lv: Seq<Seq<char>>) -> HeaderInfoM {
    let h = spec_header_prefix(lv, 0);
    spec_header_fields(h)
}

/// The lines before the first empty line.
pub open spec fn spec_header_prefix(lv: Seq<Seq<char>>, i: int) -> Seq<Seq<char>>
    decreases lv.len() - i,
    when 0 <= i
{
    if i >= lv.len() || lv[i].len() == 0 {
        Seq::empty()
    } else {
        seq![lv[i]] + spec_header_prefix(lv, i + 1)
    }
}

/// One person line folded into the fields.
pub open spec fn spec_with_person(m: HeaderInfoM, s: Seq<char>) -> HeaderInfoM {
    match spec_person_type(s) {
        PersonType::Editor => HeaderInfoM { editor: Some(s), ..m },
        PersonType::Translator => HeaderInfoM { translator: Some(s), ..m },
        PersonType::Henyaku => HeaderInfoM { henyaku: Some(s), ..m },
        PersonType::Author => HeaderInfoM { author: Some(s), ..m },
    }
}

/// The empty set of fields.
pub open spec fn spec_no_fields() -> HeaderInfoM {
    HeaderInfoM {
        title: None,
        author: None,
        subtitle: None,
        original_title: None,
        original_subtitle: None,
        translator: None,
        editor: None,
        henyaku: None,
    }
}

/// The fields read from the front-matter lines, by their count.
pub open spec fn spec_header_fields(h: Seq<Seq<char>>) -> HeaderInfoM {
    let m0 = spec_no_fields();
    if h.len() == 0 {
        m0
    } else if h.len() == 1 {
        HeaderInfoM { title: Some(h[0]), ..m0 }
    } else if h.len() == 2 {
        spec_with_person(HeaderInfoM { title: Some(h[0]), ..m0 }, h[1])
    } else if h.len() == 3 {
        let m1 = HeaderInfoM { title: Some(h[0]), ..m0 };
        if spec_is_original_title(h[1]) {
            spec_with_person(HeaderInfoM { original_title: Some(h[1]), ..m1 }, h[2])
        } else if spec_person_type(h[2]) == PersonType::Author {
            HeaderInfoM { subtitle: Some(h[1]), ..spec_with_person(m1, h[2]) }
        } else {
            HeaderInfoM { author: Some(h[1]), ..spec_with_person(m1, h[2]) }
        }
    } else if h.len() == 4 {
        let m1 = HeaderInfoM { title: Some(h[0]), ..m0 };
        let m2 = if spec_is_original_title(h[1]) {
            HeaderInfoM { original_title: Some(h[1]), ..m1 }
        } else {
            HeaderInfoM { subtitle: Some(h[1]), ..m1 }
        };
        if spec_person_type(h[3]) == PersonType::Author {
            HeaderInfoM { subtitle: Some(h[2]), ..spec_with_person(m2, h[3]) }
        } else {
            HeaderInfoM { author: Some(h[2]), ..spec_with_person(m2, h[3]) }
        }
    } else if h.len() == 5 {
        spec_with_person(
            HeaderInfoM {
                title: Some(h[0]),
                original_title: Some(h[1]),
                subtitle: Some(h[2]),
                author: Some(h[3]),
                ..m0
            },
            h[4],
        )
    } else {
        spec_with_person(
            HeaderInfoM {
                title: Some(h[0]),
                original_title: Some(h[1]),
                subtitle: Some(h[2]),
                original_subtitle: Some(h[3]),
                author: Some(h[4]),
                ..m0
            },
            h[5],
        )
    }
}

/// One person line folded into the fields, returning its kind.
fn process_person(s: &str, info: &mut HeaderInfo) -> (r: PersonType)
    ensures
        r == spec_person_type(s@),
        final(info).model() == spec_with_person(old(info).model(), s@),
{
    let cv = str_to_chars(s);
    let t = detect_person_type_chars(&cv);
    match t {
        PersonType::Editor => info.editor = Some(s.to_owned()),
        PersonType::Translator => info.translator = Some(s.to_owned()),
        PersonType::Henyaku => info.henyaku = Some(s.to_owned()),
        PersonType::Author => info.author = Some(s.to_owned()),
    }
    t
}

/// The number of leading non-empty lines.
fn header_len(lines: &Vec<&str>) -> (r: usize)
    ensures
        r <= lines@.len(),
        forall|k: int| 0 <= k < r ==> views_of(lines@)[k].len() > 0,
        r == lines@.len() || views_of(lines@)[r as int].len() == 0,
{
    let n = lines.len();
    let mut i: usize = 0;
    while i < n
        invariant
            i <= n,
            n == lines@.len(),
            forall|k: int| 0 <= k < i ==> views_of(lines@)[k].len() > 0,
        decreases n - i,
    {
        let cv = str_to_chars(lines[i]);
        proof {
            assert(views_of(lines@)[i as int] == lines@[i as int]@);
        }
        if cv.len() == 0 {
            return i;
        }
        i += 1;
    }
    n
}

/// Read the front-matter fields from the leading lines.
pub fn extract_header_info(lines: &Vec<&str>) -> (r: HeaderInfo)
    ensures
        r.model() == spec_header_info(views_of(lines@)),
{
    let ghost lv = views_of(lines@);
    let n = lines.len();
    let hl = header_len(lines);
    let mut header: Vec<&str> = Vec::new();
    let mut i: usize = 0;
    while i < hl
        invariant
            i <= hl <= n,
            n == lines@.len(),
            lv == views_of(lines@),
            lv.len() == n,
            header@.len() == i,
            forall|k: int| 0 <= k < i ==> (#[trigger] header@[k])@ == lv[k],
        decreases hl - i,
    {
        header.push(lines[i]);
        proof {
            assert(lines@[i as int]@ == lv[i as int]);
        }
        i += 1;
    }
    proof {
        assert(views_of(header@) =~= lv.subrange(0, hl as int));
        lemma_header_prefix(lv, 0, hl as int);
    }
    let ghost h = views_of(header@);
    let hn = header.len();
    let mut info = HeaderInfo {
        title: None,
        author: None,
        subtitle: None,
        original_title: None,
        original_subtitle: None,
        translator: None,
        editor: None,
        henyaku: None,
    };
    if hn == 0 {
        return info;
    }
    info.title = Some(header[0].to_owned());
    if hn == 1 {
        return info;
    }
    if hn == 2 {
        process_person(header[1], &mut info);
        return info;
    }
    if hn == 3 {
        let c1 = str_to_chars(header[1]);
        if is_original_title_chars(&c1) {
            info.original_title = Some(header[1].to_owned());
            process_person(header[2], &mut info);
        } else {
            let t = process_person(header[2], &mut info);
            if matches!(t, PersonType::Author) {
                info.subtitle = Some(header[1].to_owned());
            } else {
                info.author = Some(header[1].to_owned());
            }
        }
        return info;
    }
    if hn == 4 {
        let c1 = str_to_chars(header[1]);
        if is_original_title_chars(&c1) {
            info.original_title = Some(header[1].to_owned());
        } else {
            info.subtitle = Some(header[1].to_owned());
        }
        let t = process_person(header[3], &mut info);
        if matches!(t, PersonType::Author) {
            info.subtitle = Some(header[2].to_owned());
        } else {
            info.author = Some(header[2].to_owned());
        }
        return info;
    }
    if hn == 5 {
        info.original_title = Some(header[1].to_owned());
        info.subtitle = Some(header[2].to_owned());
        info.author = Some(header[3].to_owned());
        process_person(header[4], &mut info);
        return info;
    }
    info.original_title = Some(header[1].to_owned());
    info.subtitle = Some(header[2].to_owned());
    info.original_subtitle = Some(header[3].to_owned());
    info.author = Some(header[4].to_owned());
    process_person(header[5], &mut info);
    info
}

proof fn lemma_header_prefix(lv: Seq<Seq<char>>, from: int, upto: int)
    requires
        0 <= from <= upto <= lv.len(),
        forall|k: int| from <= k < upto ==> lv[k].len() > 0,
        upto == lv.len() || lv[upto].len() == 0,
    ensures
        spec_header_prefix(lv, from) == lv.subrange(from, upto),
    decreases upto - from,
{
    if from < upto {
        lemma_header_prefix(lv, from + 1, upto);
        assert(lv.subrange(from, upto) =~= seq![lv[from]] + lv.subrange(from + 1, upto));
    } else {
        assert(lv.subrange(from, from) =~= Seq::<Seq<char>>::empty());
    }
}

} // verus!
