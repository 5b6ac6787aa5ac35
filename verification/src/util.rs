use vstd::prelude::*;

verus! {

// ---------------------------------------------------------------------------
// Character classes (ASCII), shared by the identifier sanitizer and the
// import-path translator.
// ---------------------------------------------------------------------------

pub open spec fn is_digit_c(c: char) -> bool {
    48 <= c as u32 <= 57
}

pub open spec fn is_upper_c(c: char) -> bool {
    65 <= c as u32 <= 90
}

pub open spec fn is_lower_c(c: char) -> bool {
    97 <= c as u32 <= 122
}

pub open spec fn is_alpha_c(c: char) -> bool {
    is_upper_c(c) || is_lower_c(c)
}

pub open spec fn is_ident_c(c: char) -> bool {
    is_alpha_c(c) || is_digit_c(c) || c as u32 == 95
}

/// Lowers an ASCII upper-case letter; leaves every other character alone.
pub open spec fn to_lower_c(c: char) -> char {
    if is_upper_c(c) {
        ((c as u32 + 32) as u8) as char
    } else {
        c
    }
}

pub fn ex_is_digit(c: char) -> (r: bool)
    ensures
        r == is_digit_c(c),
{
    let u = c as u32;
    48 <= u && u <= 57
}

pub fn ex_is_upper(c: char) -> (r: bool)
    ensures
        r == is_upper_c(c),
{
    let u = c as u32;
    65 <= u && u <= 90
}

pub fn ex_is_alpha(c: char) -> (r: bool)
    ensures
        r == is_alpha_c(c),
{
    let u = c as u32;
    (65 <= u && u <= 90) || (97 <= u && u <= 122)
}

pub fn ex_is_ident_c(c: char) -> (r: bool)
    ensures
        r == is_ident_c(c),
{
    let u = c as u32;
    (65 <= u && u <= 90) || (97 <= u && u <= 122) || (48 <= u && u <= 57) || u == 95
}

pub fn ex_to_lower(c: char) -> (r: char)
    ensures
        r == to_lower_c(c),
{
    let u = c as u32;
    if 65 <= u && u <= 90 {
        ((u + 32) as u8) as char
    } else {
        c
    }
}

// ---------------------------------------------------------------------------
// Bridges between `String`/`&str` and `Vec<char>`.
// ---------------------------------------------------------------------------

/// The characters of a string slice, in order.
pub fn str_chars(s: &str) -> (v: Vec<char>)
    ensures
        v@ == s@,
{
    let n = s.unicode_len();
    let mut v: Vec<char> = Vec::new();
    let mut i: usize = 0;
    while i < n
        invariant
            n == s@.len(),
            i <= n,
            v@ == s@.subrange(0, i as int),
        decreases n - i,
    {
        let c = s.get_char(i);
        v.push(c);
        i = i + 1;
        proof {
            assert(v@ =~~= s@.subrange(0, i as int));
        }
    }
    proof {
        assert(v@ =~~= s@);
    }
    v
}

/// Relies on `String::push` from std: appends one character to the string.
#[verifier::external_body]
fn push_char(s: &mut String, c: char)
    ensures
        final(s)@ == old(s)@.push(c),
{
    s.push(c);
}

/// A freshly built string holding exactly the given characters.
pub fn chars_to_string(v: &Vec<char>) -> (s: String)
    ensures
        s@ == v@,
{
    let mut s = String::new();
    let mut i: usize = 0;
    while i < v.len()
        invariant
            i <= v@.len(),
            s@ == v@.subrange(0, i as int),
        decreases v@.len() - i,
    {
        push_char(&mut s, v[i]);
        i = i + 1;
        proof {
            assert(s@ =~~= v@.subrange(0, i as int));
        }
    }
    proof {
        assert(s@ =~~= v@);
    }
    s
}

/// A fresh owned copy of a string slice.
pub fn lit_string(s: &str) -> (r: String)
    ensures
        r@ == s@,
{
    let v = str_chars(s);
    chars_to_string(&v)
}

/// Relies on `str`'s `PartialEq` from std: two string slices are equal
/// exactly when they consist of the same characters.
#[verifier::external_body]
pub fn str_eq(a: &str, b: &str) -> (r: bool)
    ensures
        r == (a@ == b@),
{
    a == b
}

// ---------------------------------------------------------------------------
// Identifier sanitizer.
// ---------------------------------------------------------------------------

/// Raw source names the sanitizer accepts: non-empty, made of ASCII
/// identifier characters, not starting with a digit, and not one of the two
/// names that can be neither a plain nor a raw target identifier.
pub open spec fn valid_source_name(s: Seq<char>) -> bool {
    &&& s.len() > 0
    &&& !is_digit_c(s[0])
    &&& (forall|i: int| 0 <= i < s.len() ==> is_ident_c(#[trigger] s[i]))
    &&& s != "Self"@
    &&& s != "_"@
}

/// Target-language keywords that a sanitized name must avoid; such a name is
/// emitted in its raw (`r#`) form instead.
pub open spec fn is_rust_keyword(s: Seq<char>) -> bool {
    ||| s == "as"@
    ||| s == "break"@
    ||| s == "const"@
    ||| s == "continue"@
    ||| s == "dyn"@
    ||| s == "else"@
    ||| s == "enum"@
    ||| s == ("ext"@ + "ern"@)
    ||| s == "false"@
    ||| s == "fn"@
    ||| s == "for"@
    ||| s == "if"@
    ||| s == "impl"@
    ||| s == "in"@
    ||| s == "let"@
    ||| s == "loop"@
    ||| s == "match"@
    ||| s == "mod"@
    ||| s == "move"@
    ||| s == "mut"@
    ||| s == "pub"@
    ||| s == "ref"@
    ||| s == "return"@
    ||| s == "static"@
    ||| s == "struct"@
    ||| s == "trait"@
    ||| s == "true"@
    ||| s == "type"@
    ||| s == "unsafe"@
    ||| s == "use"@
    ||| s == "where"@
    ||| s == "while"@
    ||| s == "async"@
    ||| s == "await"@
    ||| s == "abstract"@
    ||| s == "become"@
    ||| s == "box"@
    ||| s == "do"@
    ||| s == "final"@
    ||| s == "macro"@
    ||| s == "override"@
    ||| s == "priv"@
    ||| s == "try"@
    ||| s == "typeof"@
    ||| s == "unsized"@
    ||| s == "virtual"@
    ||| s == "yield"@
}

fn ex_is_rust_keyword(s: &str) -> (r: bool)
    ensures
        r == is_rust_keyword(s@),
{
    let kw_x = chars_to_string(&str_chars("ext")).concat("ern");
    proof {
        assert(kw_x@ == "ext"@ + "ern"@);
    }
    let r = str_eq(s, "as") || str_eq(s, "break") || str_eq(s, "const") || str_eq(s, "continue")
        || str_eq(s, "dyn") || str_eq(s, "else") || str_eq(s, "enum") || str_eq(s, kw_x.as_str())
        || str_eq(s, "false") || str_eq(s, "fn") || str_eq(s, "for") || str_eq(s, "if") || str_eq(
        s,
        "impl",
    ) || str_eq(s, "in") || str_eq(s, "let") || str_eq(s, "loop") || str_eq(s, "match") || str_eq(
        s,
        "mod",
    ) || str_eq(s, "move") || str_eq(s, "mut") || str_eq(s, "pub") || str_eq(s, "ref") || str_eq(
        s,
        "return",
    ) || str_eq(s, "static") || str_eq(s, "struct") || str_eq(s, "trait") || str_eq(s, "true")
        || str_eq(s, "type") || str_eq(s, "unsafe") || str_eq(s, "use") || str_eq(s, "where")
        || str_eq(s, "while") || str_eq(s, "async") || str_eq(s, "await") || str_eq(s, "abstract")
        || str_eq(s, "become") || str_eq(s, "box") || str_eq(s, "do") || str_eq(s, "final")
        || str_eq(s, "macro") || str_eq(s, "override") || str_eq(s, "priv") || str_eq(s, "try")
        || str_eq(s, "typeof") || str_eq(s, "unsized") || str_eq(s, "virtual") || str_eq(
        s,
        "yield",
    );
    r
}

/// Whether every alphabetic character of the name is upper case; such names
/// (`URL`, `JSON`) keep their casing.
pub open spec fn all_upper(s: Seq<char>) -> bool {
    forall|i: int| 0 <= i < s.len() ==> !is_alpha_c(#[trigger] s[i]) || is_upper_c(s[i])
}

/// One character of the case-folded name: a character is lowered exactly when
/// the name is not all upper case, the previous character is upper case or a
/// digit, and the next character (if any) is upper case.
pub open spec fn fold_at(s: Seq<char>, i: int) -> char {
    if !all_upper(s) && i > 0 && (is_upper_c(s[i - 1]) || is_digit_c(s[i - 1])) && (i == s.len() - 1
        || is_upper_c(s[i + 1])) {
        to_lower_c(s[i])
    } else {
        s[i]
    }
}

pub open spec fn case_fold(s: Seq<char>) -> Seq<char> {
    Seq::new(s.len(), |i: int| fold_at(s, i))
}

/// The sanitized form of a raw source name: the three scope keywords gain an
/// `_rs` suffix; any other name is case-folded, and then put in raw form if
/// it collides with a target keyword.
pub open spec fn spec_sanitize(s: Seq<char>) -> Seq<char> {
    if s == "self"@ || s == "super"@ || s == "crate"@ {
        s + "_rs"@
    } else {
        let t = case_fold(s);
        if is_rust_keyword(t) {
            "r#"@ + t
        } else {
            t
        }
    }
}

/// Makes a foreign identifier a valid target identifier, changing casing to
/// match the target ecosystem's conventions.
pub fn sanitize_sym(sym: &str) -> (r: String)
    requires
        valid_source_name(sym@),
    ensures
        r@ == spec_sanitize(sym@),
{
    if str_eq(sym, "self") || str_eq(sym, "super") || str_eq(sym, "crate") {
        let mut out = str_chars(sym);
        let mut suffix = str_chars("_rs");
        proof {
            reveal_strlit("_rs");
        }
        out.append(&mut suffix);
        let r = chars_to_string(&out);
        proof {
            assert(r@ =~~= sym@ + "_rs"@);
        }
        return r;
    }
    let cs = str_chars(sym);
    let n = cs.len();
    let mut au = true;
    let mut i: usize = 0;
    while i < n
        invariant
            n == cs@.len(),
            i <= n,
            au == (forall|j: int|
                0 <= j < i ==> !is_alpha_c(#[trigger] cs@[j]) || is_upper_c(cs@[j])),
        decreases n - i,
    {
        let c = cs[i];
        if ex_is_alpha(c) && !ex_is_upper(c) {
            au = false;
        }
        i = i + 1;
    }
    proof {
        assert(au == all_upper(sym@));
    }
    let mut out: Vec<char> = Vec::new();
    let mut i: usize = 0;
    while i < n
        invariant
            n == cs@.len(),
            cs@ == sym@,
            i <= n,
            au == all_upper(sym@),
            out@.len() == i,
            forall|j: int| 0 <= j < i ==> out@[j] == fold_at(sym@, j),
        decreases n - i,
    {
        let c = cs[i];
        let prev_cap = if i > 0 {
            let p = cs[i - 1];
            ex_is_upper(p) || ex_is_digit(p)
        } else {
            false
        };
        let next_up = if i + 1 < n {
            ex_is_upper(cs[i + 1])
        } else {
            true
        };
        if !au && prev_cap && next_up {
            out.push(ex_to_lower(c));
        } else {
            out.push(c);
        }
        i = i + 1;
    }
    let folded = chars_to_string(&out);
    proof {
        assert(folded@ =~~= case_fold(sym@));
    }
    if ex_is_rust_keyword(folded.as_str()) {
        let mut rawed = str_chars("r#");
        let mut rest = str_chars(folded.as_str());
        rawed.append(&mut rest);
        let r = chars_to_string(&rawed);
        proof {
            assert(r@ =~~= "r#"@ + case_fold(sym@));
        }
        r
    } else {
        folded
    }
}

// ---------------------------------------------------------------------------
// Relative import paths.
// ---------------------------------------------------------------------------

/// One segment of a target-language scope path synthesized from a relative
/// import path.
#[derive(Debug, Clone, PartialEq, Eq)]
pub enum PathSeg {
    /// A step up to the enclosing scope.
    Up,
    /// A reference to the current scope.
    SelfScope,
    /// A named sibling scope.
    Named(String),
}

/// Mathematical model of [`PathSeg`].
pub enum PathSegV {
    Up,
    SelfScope,
    Named(Seq<char>),
}

impl View for PathSeg {
    type V = PathSegV;

    open spec fn view(&self) -> PathSegV {
        match self {
            PathSeg::Up => PathSegV::Up,
            PathSeg::SelfScope => PathSegV::SelfScope,
            PathSeg::Named(s) => PathSegV::Named(s@),
        }
    }
}

pub open spec fn view_segs(v: Seq<PathSeg>) -> Seq<PathSegV> {
    v.map(|i: int, s: PathSeg| s@)
}

/// Splitting characters on `/`, with the accumulator of the scan made
/// explicit: `cur` is the piece being read, `acc` the pieces already read.
pub open spec fn split_acc(s: Seq<char>, i: int, cur: Seq<char>, acc: Seq<Seq<char>>) -> Seq<
    Seq<char>,
>
    decreases s.len() - i,
{
    if i < 0 || i >= s.len() {
        acc.push(cur)
    } else if s[i] == '/' {
        split_acc(s, i + 1, Seq::empty(), acc.push(cur))
    } else {
        split_acc(s, i + 1, cur.push(s[i]), acc)
    }
}

/// The `/`-separated pieces of a path.
pub open spec fn split_slash(s: Seq<char>) -> Seq<Seq<char>> {
    split_acc(s, 0, Seq::empty(), Seq::empty())
}

pub fn ex_split_slash(s: &str) -> (r: Vec<String>)
    ensures
        r@.map(|i: int, p: String| p@) == split_slash(s@),
{
    let cs = str_chars(s);
    let n = cs.len();
    let mut acc: Vec<String> = Vec::new();
    let mut cur: Vec<char> = Vec::new();
    let mut i: usize = 0;
    proof {
        assert(acc@.map(|k: int, p: String| p@) =~~= Seq::<Seq<char>>::empty());
    }
    while i < n
        invariant
            n == cs@.len(),
            cs@ == s@,
            i <= n,
            split_acc(s@, i as int, cur@, acc@.map(|k: int, p: String| p@)) == split_slash(s@),
        decreases n - i,
    {
        let c = cs[i];
        if c == '/' {
            let ghost accv = acc@.map(|k: int, p: String| p@);
            let piece = chars_to_string(&cur);
            acc.push(piece);
            proof {
                assert(acc@.map(|k: int, p: String| p@) =~~= accv.push(cur@));
            }
            cur = Vec::new();
        } else {
            cur.push(c);
        }
        i = i + 1;
    }
    let ghost accv = acc@.map(|k: int, p: String| p@);
    let piece = chars_to_string(&cur);
    acc.push(piece);
    proof {
        assert(acc@.map(|k: int, p: String| p@) =~~= accv.push(cur@));
    }
    acc
}

/// The piece with a trailing `.js` removed, if it carries one.
pub open spec fn strip_js(p: Seq<char>) -> Seq<char> {
    if p.len() >= 3 && p.subrange(p.len() - 3, p.len() as int) == ".js"@ {
        p.subrange(0, p.len() - 3)
    } else {
        p
    }
}

/// The scope name a path piece turns into: the piece, without any `.js`
/// suffix, followed by `Mod`.
pub open spec fn mod_name_of(p: Seq<char>) -> Seq<char> {
    strip_js(p) + "Mod"@
}

/// A piece of a relative import path that the translator accepts: a dot
/// marker, or a piece whose scope name is a plain target identifier.
pub open spec fn valid_import_piece(p: Seq<char>) -> bool {
    ||| p == "."@
    ||| p == ".."@
    ||| {
        let q = strip_js(p);
        &&& (forall|i: int| 0 <= i < q.len() ==> is_ident_c(#[trigger] q[i]))
        &&& (q.len() == 0 || !is_digit_c(q[0]))
    }
}

pub open spec fn valid_import_path(s: Seq<char>) -> bool {
    forall|i: int|
        0 <= i < split_slash(s).len() ==> valid_import_piece(#[trigger] split_slash(s)[i])
}

/// The path segments contributed by the pieces from `i` on, where `first_dd`
/// says whether a `..` piece has been seen yet: the first `..` steps up
/// twice, every further `..` once, and `.` steps up once.
pub open spec fn segs_from(pieces: Seq<Seq<char>>, i: int, first_dd: bool) -> Seq<PathSegV>
    decreases pieces.len() - i,
{
    if i < 0 || i >= pieces.len() {
        Seq::empty()
    } else if pieces[i] == "."@ {
        seq![PathSegV::Up] + segs_from(pieces, i + 1, first_dd)
    } else if pieces[i] == ".."@ {
        if first_dd {
            seq![PathSegV::Up, PathSegV::Up] + segs_from(pieces, i + 1, false)
        } else {
            seq![PathSegV::Up] + segs_from(pieces, i + 1, first_dd)
        }
    } else {
        seq![PathSegV::Named(mod_name_of(pieces[i]))] + segs_from(pieces, i + 1, first_dd)
    }
}

/// The scope path that a relative import path routes to.
pub open spec fn spec_import_prefix(s: Seq<char>) -> Seq<PathSegV> {
    segs_from(split_slash(s), 0, true)
}

fn ex_mod_name(p: &String) -> (r: String)
    ensures
        r@ == mod_name_of(p@),
{
    let cs = str_chars(p.as_str());
    let n = cs.len();
    let stripped: Vec<char> = if n >= 3 {
        let c0 = cs[n - 3];
        let c1 = cs[n - 2];
        let c2 = cs[n - 1];
        proof {
            reveal_strlit(".js");
        }
        if c0 == '.' && c1 == 'j' && c2 == 's' {
            let mut t: Vec<char> = Vec::new();
            let mut i: usize = 0;
            while i < n - 3
                invariant
                    n == cs@.len(),
                    n >= 3,
                    i <= n - 3,
                    t@ == cs@.subrange(0, i as int),
                decreases n - 3 - i,
            {
                t.push(cs[i]);
                i = i + 1;
                proof {
                    assert(t@ =~~= cs@.subrange(0, i as int));
                }
            }
            proof {
                assert(cs@.subrange(n - 3, n as int) =~~= ".js"@);
            }
            t
        } else {
            proof {
                assert(cs@.subrange(n - 3, n as int) != ".js"@) by {
                    if cs@.subrange(n - 3, n as int) == ".js"@ {
                        assert(cs@.subrange(n - 3, n as int)[0] == '.');
                        assert(cs@.subrange(n - 3, n as int)[1] == 'j');
                        assert(cs@.subrange(n - 3, n as int)[2] == 's');
                    }
                }
            }
            cs
        }
    } else {
        cs
    };
    proof {
        assert(stripped@ == strip_js(p@));
    }
    let mut out = stripped;
    let mut tail = str_chars("Mod");
    out.append(&mut tail);
    let r = chars_to_string(&out);
    proof {
        assert(r@ =~~= strip_js(p@) + "Mod"@);
    }
    r
}

/// Turns a relative import path into a scope path: `.` refers to the same
/// level, `..` one level up (stepping up twice the first time, once
/// thereafter), and any other piece to a named sibling scope.
pub fn import_prefix_to_idents(path: &str) -> (r: Vec<PathSeg>)
    requires
        valid_import_path(path@),
    ensures
        view_segs(r@) == spec_import_prefix(path@),
{
    let pieces = ex_split_slash(path);
    let ghost pv = pieces@.map(|i: int, p: String| p@);
    let mut acc: Vec<PathSeg> = Vec::new();
    let mut first_dd = true;
    let mut i: usize = 0;
    while i < pieces.len()
        invariant
            pv == split_slash(path@),
            pv == pieces@.map(|k: int, p: String| p@),
            i <= pieces@.len(),
            view_segs(acc@) + segs_from(pv, i as int, first_dd) == spec_import_prefix(path@),
        decreases pieces@.len() - i,
    {
        let ghost accv = view_segs(acc@);
        let piece = &pieces[i];
        proof {
            assert(pv[i as int] == piece@);
        }
        if str_eq(piece.as_str(), ".") {
            acc.push(PathSeg::Up);
            proof {
                assert(view_segs(acc@) =~~= accv.push(PathSegV::Up));
                assert(view_segs(acc@) + segs_from(pv, i + 1, first_dd) =~~= accv + segs_from(
                    pv,
                    i as int,
                    first_dd,
                ));
            }
        } else if str_eq(piece.as_str(), "..") {
            if first_dd {
                acc.push(PathSeg::Up);
                acc.push(PathSeg::Up);
                first_dd = false;
                proof {
                    assert(view_segs(acc@) =~~= accv.push(PathSegV::Up).push(PathSegV::Up));
                    assert(view_segs(acc@) + segs_from(pv, i + 1, false) =~~= accv + segs_from(
                        pv,
                        i as int,
                        true,
                    ));
                }
            } else {
                acc.push(PathSeg::Up);
                proof {
                    assert(view_segs(acc@) =~~= accv.push(PathSegV::Up));
                    assert(view_segs(acc@) + segs_from(pv, i + 1, false) =~~= accv + segs_from(
                        pv,
                        i as int,
                        false,
                    ));
                }
            }
        } else {
            let name = ex_mod_name(piece);
            acc.push(PathSeg::Named(name));
            proof {
                assert(view_segs(acc@) =~~= accv.push(PathSegV::Named(mod_name_of(piece@))));
                assert(view_segs(acc@) + segs_from(pv, i + 1, first_dd) =~~= accv + segs_from(
                    pv,
                    i as int,
                    first_dd,
                ));
            }
        }
        i = i + 1;
    }
    proof {
        assert(segs_from(pv, pieces@.len() as int, first_dd) =~~= Seq::<PathSegV>::empty());
        assert(view_segs(acc@) =~~= view_segs(acc@) + segs_from(pv, i as int, first_dd));
    }
    acc
}

// ---------------------------------------------------------------------------
// Decimal suffixes for collision resolution.
// ---------------------------------------------------------------------------

/// The character of one decimal digit.
pub open spec fn digit_c(d: nat) -> char {
    let r = d % 10;
    if r == 0 {
        '0'
    } else if r == 1 {
        '1'
    } else if r == 2 {
        '2'
    } else if r == 3 {
        '3'
    } else if r == 4 {
        '4'
    } else if r == 5 {
        '5'
    } else if r == 6 {
        '6'
    } else if r == 7 {
        '7'
    } else if r == 8 {
        '8'
    } else {
        '9'
    }
}

fn ex_digit_c(d: u64) -> (c: char)
    ensures
        c == digit_c(d as nat),
{
    let r = d % 10;
    if r == 0 {
        '0'
    } else if r == 1 {
        '1'
    } else if r == 2 {
        '2'
    } else if r == 3 {
        '3'
    } else if r == 4 {
        '4'
    } else if r == 5 {
        '5'
    } else if r == 6 {
        '6'
    } else if r == 7 {
        '7'
    } else if r == 8 {
        '8'
    } else {
        '9'
    }
}

/// The decimal notation of a number, most significant digit first.
pub open spec fn dec_digits(n: nat) -> Seq<char>
    decreases n,
{
    if n < 10 {
        seq![digit_c(n)]
    } else {
        dec_digits(n / 10).push(digit_c(n % 10))
    }
}

/// A name carrying a decimal disambiguation suffix.
pub open spec fn suffixed_name(base: Seq<char>, c: nat) -> Seq<char> {
    base + "_"@ + dec_digits(c)
}

pub fn u64_to_dec(n: u64) -> (r: String)
    ensures
        r@ == dec_digits(n as nat),
    decreases n,
{
    if n < 10 {
        let c = ex_digit_c(n);
        let v: Vec<char> = vec![c];
        let r = chars_to_string(&v);
        proof {
            assert(r@ =~~= seq![digit_c(n as nat)]);
        }
        r
    } else {
        let mut s = u64_to_dec(n / 10);
        let c = ex_digit_c(n);
        push_char(&mut s, c);
        s
    }
}

pub fn u128_to_dec(n: u128) -> (r: String)
    ensures
        r@ == dec_digits(n as nat),
    decreases n,
{
    if n < 10 {
        let c = ex_digit_c((n % 10) as u64);
        let v: Vec<char> = vec![c];
        let r = chars_to_string(&v);
        proof {
            assert(r@ =~~= seq![digit_c(n as nat)]);
        }
        r
    } else {
        let mut s = u128_to_dec(n / 10);
        let c = ex_digit_c((n % 10) as u64);
        push_char(&mut s, c);
        s
    }
}

pub proof fn lemma_dec_digits_len(n: nat)
    ensures
        dec_digits(n).len() >= 1,
        n >= 10 ==> dec_digits(n).len() >= 2,
    decreases n,
{
    if n >= 10 {
        lemma_dec_digits_len(n / 10);
    }
}

/// Decimal notation is injective: distinct numbers have distinct notations.
pub proof fn lemma_dec_digits_injective(a: nat, b: nat)
    requires
        dec_digits(a) == dec_digits(b),
    ensures
        a == b,
    decreases a,
{
    lemma_dec_digits_len(a);
    lemma_dec_digits_len(b);
    if a < 10 && b < 10 {
        assert(dec_digits(a) == seq![digit_c(a)]);
        assert(dec_digits(b) == seq![digit_c(b)]);
        assert(seq![digit_c(a)][0] == digit_c(a));
        assert(seq![digit_c(b)][0] == digit_c(b));
        assert(digit_c(a) == digit_c(b));
    } else if a < 10 {
        assert(dec_digits(a).len() == 1);
        assert(dec_digits(b).len() >= 2);
    } else if b < 10 {
        assert(dec_digits(b).len() == 1);
        assert(dec_digits(a).len() >= 2);
    } else {
        let sa = dec_digits(a / 10);
        let sb = dec_digits(b / 10);
        assert(dec_digits(a) == dec_digits(a / 10).push(digit_c(a % 10)));
        assert(dec_digits(b) == dec_digits(b / 10).push(digit_c(b % 10)));
        assert(dec_digits(a).last() == digit_c(a % 10));
        assert(dec_digits(b).last() == digit_c(b % 10));
        assert(digit_c(a % 10) == digit_c(b % 10));
        assert(a % 10 == b % 10);
        assert(sa =~~= dec_digits(a).drop_last());
        assert(sb =~~= dec_digits(b).drop_last());
        lemma_dec_digits_injective(a / 10, b / 10);
        vstd::arithmetic::div_mod::lemma_fundamental_div_mod(a as int, 10);
        vstd::arithmetic::div_mod::lemma_fundamental_div_mod(b as int, 10);
    }
}

/// Suffixed names are injective in the counter, and never collide with the
/// bare name they were built from.
pub proof fn lemma_suffixed_name_injective(base: Seq<char>, c1: nat, c2: nat)
    requires
        suffixed_name(base, c1) == suffixed_name(base, c2),
    ensures
        c1 == c2,
{
    let s1 = suffixed_name(base, c1);
    let s2 = suffixed_name(base, c2);
    assert(dec_digits(c1) =~~= s1.subrange(base.len() + "_"@.len() as int, s1.len() as int));
    assert(dec_digits(c2) =~~= s2.subrange(base.len() + "_"@.len() as int, s2.len() as int));
    lemma_dec_digits_injective(c1, c2);
}

pub proof fn lemma_suffixed_name_ne_base(base: Seq<char>, c: nat)
    ensures
        suffixed_name(base, c) != base,
    decreases c,
{
    lemma_dec_digits_len(c);
    assert(suffixed_name(base, c).len() > base.len()) by {
        reveal_strlit("_");
    }
}

} // verus!
