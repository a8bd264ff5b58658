//! Character-level helpers: comparison of names, identifier syntax, decimal
//! numerals and `/`-separated paths.
//!
//! A path here is text, and `/` is the one separator. The functions on
//! paths are defined by what they do to the text and are not those of
//! `std::path`, which reads a path by its components. They agree with
//! `std::path` on the paths that a build hands around, `dir/name.ext` with
//! or without a leading `/`, and differ from it
//! - on a path that ends in `/`: `a/b/` has the empty last component here
//!   and lies in `a/b`, where `std::path` sees the component `b` in `a`;
//! - on `..` as the last component, which is a name like any other here and
//!   is no file name to `std::path`;
//! - on the root `/`, which lies in itself here and has no parent there;
//! - on every other separator and on drive prefixes, which are part of a
//!   name here.

use vstd::prelude::*;
use vstd::string::*;

verus! {

/// Strict lexicographic order of `a` and `b` by code point, looking only at
/// positions from `i` on.
pub open spec fn precedes_from(a: Seq<char>, b: Seq<char>, i: int) -> bool
    decreases a.len() - i,
{
    if i < 0 || i >= b.len() {
        false
    } else if i >= a.len() {
        true
    } else if a[i] < b[i] {
        true
    } else if b[i] < a[i] {
        false
    } else {
        precedes_from(a, b, i + 1)
    }
}

/// Strict lexicographic order by code point: the order in which the keys of
/// a manifest's mappings are walked.
pub open spec fn precedes(a: Seq<char>, b: Seq<char>) -> bool {
    precedes_from(a, b, 0)
}

/// Of two different characters one comes before the other, and never both.
pub proof fn lemma_char_order(c: char, d: char)
    ensures
        c == d || c < d || d < c,
        !(c < d && d < c),
        !(c < c),
{
    assert((c as u32) as char == c);
    assert((d as u32) as char == d);
}

/// No sequence precedes itself.
pub proof fn lemma_precedes_irreflexive(a: Seq<char>, i: int)
    requires
        0 <= i,
    ensures
        !precedes_from(a, a, i),
    decreases a.len() - i,
{
    if i < a.len() {
        lemma_precedes_irreflexive(a, i + 1);
    }
}

/// Two sequences that agree before `i` and are unordered from `i` on are equal.
pub proof fn lemma_precedes_total(a: Seq<char>, b: Seq<char>, i: int)
    requires
        0 <= i <= a.len(),
        i <= b.len(),
        a.subrange(0, i) == b.subrange(0, i),
        !precedes_from(a, b, i),
        !precedes_from(b, a, i),
    ensures
        a == b,
    decreases a.len() - i,
{
    if i >= a.len() || i >= b.len() {
        assert(a.len() == b.len());
        assert(a =~= a.subrange(0, i));
        assert(b =~= b.subrange(0, i));
    } else {
        lemma_char_order(a[i], b[i]);
        assert(a.subrange(0, i + 1) =~= a.subrange(0, i).push(a[i]));
        assert(b.subrange(0, i + 1) =~= b.subrange(0, i).push(b[i]));
        lemma_precedes_total(a, b, i + 1);
    }
}

/// The order is transitive.
pub proof fn lemma_precedes_transitive(a: Seq<char>, b: Seq<char>, c: Seq<char>, i: int)
    requires
        0 <= i,
        precedes_from(a, b, i),
        precedes_from(b, c, i),
    ensures
        precedes_from(a, c, i),
    decreases a.len() - i,
{
    if i < a.len() && i < b.len() && i < c.len() {
        lemma_char_order(a[i], b[i]);
        lemma_char_order(b[i], c[i]);
        lemma_char_order(a[i], c[i]);
        if a[i] == b[i] && b[i] == c[i] {
            lemma_precedes_transitive(a, b, c, i + 1);
        }
    }
}

/// The characters of `s`, one by one.
pub fn chars_of(s: &str) -> (r: Vec<char>)
    ensures
        r@ == s@,
{
    let n: usize = s.unicode_len();
    let mut out: Vec<char> = Vec::new();
    let mut i: usize = 0;
    while i < n
        invariant
            n == s@.len(),
            i <= n,
            out@ == s@.subrange(0, i as int),
        decreases n - i,
    {
        let c: char = s.get_char(i);
        out.push(c);
        i = i + 1;
        assert(out@ =~= s@.subrange(0, i as int));
    }
    assert(s@.subrange(0, n as int) =~= s@);
    out
}

/// Whether two character vectors hold the same text.
pub fn chars_eq(a: &Vec<char>, b: &Vec<char>) -> (r: bool)
    ensures
        r == (a@ == b@),
{
    if a.len() != b.len() {
        return false;
    }
    let mut i: usize = 0;
    while i < a.len()
        invariant
            a.len() == b.len(),
            i <= a.len(),
            a@.subrange(0, i as int) == b@.subrange(0, i as int),
        decreases a.len() - i,
    {
        if a[i] != b[i] {
            return false;
        }
        i = i + 1;
        assert(a@.subrange(0, i as int) =~= a@.subrange(0, i - 1).push(a@[i - 1]));
        assert(b@.subrange(0, i as int) =~= b@.subrange(0, i - 1).push(b@[i - 1]));
    }
    assert(a@.subrange(0, a.len() as int) =~= a@);
    assert(b@.subrange(0, b.len() as int) =~= b@);
    true
}

/// Whether two strings hold the same text.
pub fn str_eq(a: &str, b: &str) -> (r: bool)
    ensures
        r == (a@ == b@),
{
    let x = chars_of(a);
    let y = chars_of(b);
    chars_eq(&x, &y)
}

/// Whether `a` comes strictly before `b` in lexicographic order by code point.
pub fn str_precedes(a: &str, b: &str) -> (r: bool)
    ensures
        r == precedes(a@, b@),
{
    let x = chars_of(a);
    let y = chars_of(b);
    let mut i: usize = 0;
    loop
        invariant
            x@ == a@,
            y@ == b@,
            i <= x.len(),
            i <= y.len(),
            precedes(a@, b@) == precedes_from(a@, b@, i as int),
        decreases x.len() - i,
    {
        if i >= y.len() {
            return false;
        }
        if i >= x.len() {
            return true;
        }
        if x[i] < y[i] {
            return true;
        }
        if y[i] < x[i] {
            return false;
        }
        i = i + 1;
    }
}

/// A letter of the ASCII alphabet or the underscore.
pub open spec fn is_identifier_start(c: char) -> bool {
    ('a' <= c && c <= 'z') || ('A' <= c && c <= 'Z') || c == '_'
}

/// A character that may follow the first one of an identifier.
pub open spec fn is_identifier_part(c: char) -> bool {
    is_identifier_start(c) || ('0' <= c && c <= '9')
}

/// The syntax of a C identifier: not empty, made of ASCII letters, digits and
/// underscores, and not starting with a digit.
pub open spec fn is_c_identifier(s: Seq<char>) -> bool {
    &&& s.len() > 0
    &&& is_identifier_start(s[0])
    &&& forall|i: int| 0 <= i < s.len() ==> is_identifier_part(#[trigger] s[i])
}

/// Decides `is_identifier_start`.
pub fn identifier_start(c: char) -> (r: bool)
    ensures
        r == is_identifier_start(c),
{
    ('a' <= c && c <= 'z') || ('A' <= c && c <= 'Z') || c == '_'
}

/// Decides `is_identifier_part`.
pub fn identifier_part(c: char) -> (r: bool)
    ensures
        r == is_identifier_part(c),
{
    identifier_start(c) || ('0' <= c && c <= '9')
}

/// Decides whether `s` is written as a C identifier.
pub fn c_identifier(s: &str) -> (r: bool)
    ensures
        r == is_c_identifier(s@),
{
    let x = chars_of(s);
    if x.len() == 0 {
        return false;
    }
    if !identifier_start(x[0]) {
        return false;
    }
    let mut i: usize = 0;
    while i < x.len()
        invariant
            x@ == s@,
            i <= x.len(),
            forall|j: int| 0 <= j < i ==> is_identifier_part(#[trigger] s@[j]),
        decreases x.len() - i,
    {
        if !identifier_part(x[i]) {
            return false;
        }
        i = i + 1;
    }
    true
}

/// The numeral of one decimal digit.
pub open spec fn digit_text(d: nat) -> Seq<char> {
    if d == 0 {
        "0"@
    } else if d == 1 {
        "1"@
    } else if d == 2 {
        "2"@
    } else if d == 3 {
        "3"@
    } else if d == 4 {
        "4"@
    } else if d == 5 {
        "5"@
    } else if d == 6 {
        "6"@
    } else if d == 7 {
        "7"@
    } else if d == 8 {
        "8"@
    } else {
        "9"@
    }
}

/// The decimal numeral of `n`, without leading zeros.
pub open spec fn decimal_text(n: nat) -> Seq<char>
    decreases n,
{
    if n < 10 {
        digit_text(n)
    } else {
        decimal_text(n / 10) + digit_text(n % 10)
    }
}

/// The number that a decimal digit stands for.
pub open spec fn digit_value(c: char) -> int {
    (c as u32) as int - 48
}

/// The number that a decimal numeral stands for.
pub open spec fn numeral_value(s: Seq<char>) -> int
    decreases s.len(),
{
    if s.len() == 0 {
        0
    } else {
        numeral_value(s.drop_last()) * 10 + digit_value(s.last())
    }
}

/// The numeral of a digit stands for that digit.
pub proof fn lemma_digit_value(d: nat)
    requires
        d < 10,
    ensures
        digit_text(d).len() == 1,
        digit_value(digit_text(d)[0]) == d,
{
    reveal_strlit("0");
    reveal_strlit("1");
    reveal_strlit("2");
    reveal_strlit("3");
    reveal_strlit("4");
    reveal_strlit("5");
    reveal_strlit("6");
    reveal_strlit("7");
    reveal_strlit("8");
    reveal_strlit("9");
}

/// The decimal numeral of `n` stands for `n`.
pub proof fn lemma_decimal_value(n: nat)
    ensures
        numeral_value(decimal_text(n)) == n,
    decreases n,
{
    if n < 10 {
        lemma_digit_value(n);
        let s = digit_text(n);
        assert(s.drop_last() =~= Seq::<char>::empty());
        assert(numeral_value(s.drop_last()) == 0);
    } else {
        lemma_decimal_value(n / 10);
        lemma_digit_value(n % 10);
        let head = decimal_text(n / 10);
        let s = head + digit_text(n % 10);
        assert(s.drop_last() =~= head);
        assert(s.last() == digit_text(n % 10)[0]);
    }
}

fn digit(d: u64) -> (r: &'static str)
    requires
        d < 10,
    ensures
        r@ == digit_text(d as nat),
{
    if d == 0 {
        "0"
    } else if d == 1 {
        "1"
    } else if d == 2 {
        "2"
    } else if d == 3 {
        "3"
    } else if d == 4 {
        "4"
    } else if d == 5 {
        "5"
    } else if d == 6 {
        "6"
    } else if d == 7 {
        "7"
    } else if d == 8 {
        "8"
    } else {
        "9"
    }
}

/// Writes `n` in decimal.
pub fn decimal(n: u64) -> (r: String)
    ensures
        r@ == decimal_text(n as nat),
    decreases n,
{
    if n < 10 {
        String::from_str(digit(n))
    } else {
        let mut out = decimal(n / 10);
        out.append(digit(n % 10));
        out
    }
}

/// The position of the last `c` in `s`, or -1 where `s` holds none.
pub open spec fn last_index(s: Seq<char>, c: char) -> int
    decreases s.len(),
{
    if s.len() == 0 {
        -1
    } else if s.last() == c {
        s.len() - 1
    } else {
        last_index(s.drop_last(), c)
    }
}

/// `last_index` is the greatest position that holds `c`.
pub proof fn lemma_last_index(s: Seq<char>, c: char)
    ensures
        -1 <= last_index(s, c) < s.len(),
        last_index(s, c) >= 0 ==> s[last_index(s, c)] == c,
        forall|j: int| last_index(s, c) < j < s.len() ==> #[trigger] s[j] != c,
    decreases s.len(),
{
    if s.len() > 0 && s.last() != c {
        lemma_last_index(s.drop_last(), c);
        let t = s.drop_last();
        assert forall|j: int| last_index(s, c) < j < s.len() implies #[trigger] s[j] != c by {
            if j < t.len() {
                assert(t[j] == s[j]);
            }
        }
    }
}

/// What follows the last `/` of a path: all of it where it holds none, and
/// nothing where the path ends in `/`. Unlike `std::path::Path::file_name`
/// it gives the empty name for `a/b/` and the name `..` for `a/..`.
pub open spec fn file_name_of(path: Seq<char>) -> Seq<char> {
    path.subrange(last_index(path, '/') + 1, path.len() as int)
}

/// The directory that holds a path's last component: what stands before the
/// last `/`, the root itself for a file below it, and nothing where the path
/// holds no `/`. Unlike `std::path::Path::parent` it gives `a/b` for `a/b/`
/// and the root for the root.
pub open spec fn parent_of(path: Seq<char>) -> Seq<char> {
    if last_index(path, '/') < 0 {
        Seq::empty()
    } else if last_index(path, '/') == 0 {
        path.subrange(0, 1)
    } else {
        path.subrange(0, last_index(path, '/'))
    }
}

/// A file name without its last extension. A name that holds no `.`, or only
/// the one it begins with, is its own stem. Unlike
/// `std::path::Path::file_stem` it takes `..` for a name, with the stem `.`.
pub open spec fn stem_of(name: Seq<char>) -> Seq<char> {
    if last_index(name, '.') <= 0 {
        name
    } else {
        name.subrange(0, last_index(name, '.'))
    }
}

/// What follows the last `.` of a file name, where the name has an extension.
/// Unlike `std::path::Path::extension` it takes `..` for a name, with the
/// empty extension.
pub open spec fn extension_of(name: Seq<char>) -> Option<Seq<char>> {
    if last_index(name, '.') <= 0 {
        None
    } else {
        Some(name.subrange(last_index(name, '.') + 1, name.len() as int))
    }
}

/// `name` below the directory `dir`. An empty `dir` adds nothing, and a
/// `name` that starts at the root stands for itself. This is what
/// `std::path::Path::join` does where `/` is the separator; a `name` with a
/// drive prefix or another separator is put below `dir` as it is.
pub open spec fn join_of(dir: Seq<char>, name: Seq<char>) -> Seq<char> {
    if dir.len() == 0 || (name.len() > 0 && name[0] == '/') {
        name
    } else if dir.last() == '/' {
        dir + name
    } else {
        dir + "/"@ + name
    }
}

fn find_last(x: &Vec<char>, c: char) -> (r: Option<usize>)
    ensures
        match r {
            Some(i) => i < x.len() && i as int == last_index(x@, c),
            None => last_index(x@, c) == -1,
        },
{
    let mut i: usize = x.len();
    assert(x@.subrange(0, i as int) =~= x@);
    while i > 0
        invariant
            i <= x.len(),
            last_index(x@, c) == last_index(x@.subrange(0, i as int), c),
        decreases i,
    {
        let ghost head = x@.subrange(0, i as int);
        if x[i - 1] == c {
            assert(head.last() == c);
            return Some(i - 1);
        }
        assert(head.drop_last() =~= x@.subrange(0, i - 1));
        i = i - 1;
    }
    assert(x@.subrange(0, 0) =~= Seq::<char>::empty());
    None
}

/// The last component of a `/`-separated path.
pub fn file_name(path: &str) -> (r: &str)
    ensures
        r@ == file_name_of(path@),
{
    let x = chars_of(path);
    proof {
        lemma_last_index(path@, '/');
    }
    match find_last(&x, '/') {
        Some(i) => {
            assert(i < x.len());
            path.substring_char(i + 1, x.len())
        },
        None => path.substring_char(0, x.len()),
    }
}

/// The directory that holds a path's last component.
pub fn parent(path: &str) -> (r: &str)
    ensures
        r@ == parent_of(path@),
{
    let x = chars_of(path);
    proof {
        lemma_last_index(path@, '/');
    }
    match find_last(&x, '/') {
        Some(i) => {
            if i == 0 {
                path.substring_char(0, 1)
            } else {
                path.substring_char(0, i)
            }
        },
        None => {
            assert(path@.subrange(0, 0) =~= Seq::<char>::empty());
            path.substring_char(0, 0)
        },
    }
}

/// The last component of a path without its extension.
pub fn file_stem(path: &str) -> (r: &str)
    ensures
        r@ == stem_of(file_name_of(path@)),
{
    let name = file_name(path);
    let x = chars_of(name);
    proof {
        lemma_last_index(name@, '.');
    }
    match find_last(&x, '.') {
        Some(i) => {
            if i == 0 {
                assert(name@.subrange(0, x.len() as int) =~= name@);
                name.substring_char(0, x.len())
            } else {
                name.substring_char(0, i)
            }
        },
        None => {
            assert(name@.subrange(0, x.len() as int) =~= name@);
            name.substring_char(0, x.len())
        },
    }
}

/// The extension of a path's last component.
pub fn extension(path: &str) -> (r: Option<&str>)
    ensures
        match r {
            Some(e) => extension_of(file_name_of(path@)) == Some(e@),
            None => extension_of(file_name_of(path@)) is None,
        },
{
    let name = file_name(path);
    let x = chars_of(name);
    proof {
        lemma_last_index(name@, '.');
    }
    match find_last(&x, '.') {
        Some(i) => {
            if i == 0 {
                None
            } else {
                assert(i < x.len());
                Some(name.substring_char(i + 1, x.len()))
            }
        },
        None => None,
    }
}

/// Puts `name` below `dir`.
pub fn join(dir: &str, name: &str) -> (r: String)
    ensures
        r@ == join_of(dir@, name@),
{
    let d = chars_of(dir);
    let n = chars_of(name);
    if d.len() == 0 || (n.len() > 0 && n[0] == '/') {
        String::from_str(name)
    } else if d[d.len() - 1] == '/' {
        let mut out = String::from_str(dir);
        out.append(name);
        out
    } else {
        let mut out = String::from_str(dir);
        out.append("/");
        out.append(name);
        out
    }
}

/// The texts of `parts` one after the other, with `sep` between each two.
pub open spec fn joined(parts: Seq<Seq<char>>, sep: Seq<char>) -> Seq<char>
    decreases parts.len(),
{
    if parts.len() == 0 {
        Seq::empty()
    } else if parts.len() == 1 {
        parts[0]
    } else {
        joined(parts.drop_last(), sep) + sep + parts.last()
    }
}

/// The texts of `parts` one after the other.
pub open spec fn concatenated(parts: Seq<Seq<char>>) -> Seq<char>
    decreases parts.len(),
{
    if parts.len() == 0 {
        Seq::empty()
    } else {
        concatenated(parts.drop_last()) + parts.last()
    }
}

/// Writes the texts of `parts` one after the other, with `sep` between each
/// two.
pub fn join_all(parts: &Vec<String>, sep: &str) -> (r: String)
    ensures
        r@ == joined(parts.deep_view(), sep@),
{
    if parts.len() == 0 {
        return String::new();
    }
    let mut out = parts[0].clone();
    let mut i: usize = 1;
    assert(parts.deep_view().subrange(0, 1) =~= seq![parts[0]@]);
    while i < parts.len()
        invariant
            1 <= i <= parts.len(),
            out@ == joined(parts.deep_view().subrange(0, i as int), sep@),
        decreases parts.len() - i,
    {
        out.append(sep);
        out.append(parts[i].as_str());
        i = i + 1;
        assert(parts.deep_view().subrange(0, i as int).drop_last() =~= parts.deep_view().subrange(
            0,
            i - 1,
        ));
    }
    assert(parts.deep_view().subrange(0, i as int) =~= parts.deep_view());
    out
}

/// Writes the texts of `parts` one after the other.
pub fn concat_all(parts: &Vec<String>) -> (r: String)
    ensures
        r@ == concatenated(parts.deep_view()),
{
    let mut out = String::new();
    let mut i: usize = 0;
    assert(parts.deep_view().subrange(0, 0) =~= Seq::<Seq<char>>::empty());
    while i < parts.len()
        invariant
            i <= parts.len(),
            out@ == concatenated(parts.deep_view().subrange(0, i as int)),
        decreases parts.len() - i,
    {
        out.append(parts[i].as_str());
        i = i + 1;
        assert(parts.deep_view().subrange(0, i as int).drop_last() =~= parts.deep_view().subrange(
            0,
            i - 1,
        ));
    }
    assert(parts.deep_view().subrange(0, i as int) =~= parts.deep_view());
    out
}

/// What stands for the character at place `i` of `s` in an identifier: the
/// character itself where an identifier may hold it, an underscore where
/// not.
pub open spec fn identifier_piece(s: Seq<char>, i: int) -> Seq<char> {
    if is_identifier_part(s[i]) {
        s.subrange(i, i + 1)
    } else {
        "_"@
    }
}

/// The identifier that stands for the name `s`: the name itself where it
/// is written as an identifier, and else `field_` before the name with an
/// underscore in place of every character that an identifier cannot hold.
pub open spec fn identifier_of(s: Seq<char>) -> Seq<char> {
    if is_c_identifier(s) {
        s
    } else {
        "field_"@ + concatenated(Seq::new(s.len(), |i: int| identifier_piece(s, i)))
    }
}

/// Where every part is made of characters that an identifier may hold, so
/// is the text of all parts.
pub proof fn lemma_concatenated_parts(parts: Seq<Seq<char>>)
    requires
        forall|i: int, j: int|
            0 <= i < parts.len() && 0 <= j < parts[i].len() ==> is_identifier_part(
                #[trigger] parts[i][j],
            ),
    ensures
        forall|j: int|
            0 <= j < concatenated(parts).len() ==> is_identifier_part(
                #[trigger] concatenated(parts)[j],
            ),
    decreases parts.len(),
{
    if parts.len() > 0 {
        let head = parts.drop_last();
        assert forall|i: int, j: int|
            0 <= i < head.len() && 0 <= j < head[i].len() implies is_identifier_part(
            #[trigger] head[i][j],
        ) by {
            assert(head[i] == parts[i]);
        }
        lemma_concatenated_parts(head);
        let all = concatenated(parts);
        assert forall|j: int| 0 <= j < all.len() implies is_identifier_part(#[trigger] all[j]) by {
            if j >= concatenated(head).len() {
                assert(all[j] == parts.last()[j - concatenated(head).len()]);
            } else {
                assert(all[j] == concatenated(head)[j]);
            }
        }
    }
}

/// The identifier that stands for a name is written as an identifier,
/// whatever the name.
pub proof fn lemma_identifier_of(s: Seq<char>)
    ensures
        is_c_identifier(identifier_of(s)),
{
    if !is_c_identifier(s) {
        reveal_strlit("field_");
        reveal_strlit("_");
        let parts = Seq::new(s.len(), |i: int| identifier_piece(s, i));
        assert forall|i: int, j: int|
            0 <= i < parts.len() && 0 <= j < parts[i].len() implies is_identifier_part(
            #[trigger] parts[i][j],
        ) by {
            if is_identifier_part(s[i]) {
                assert(parts[i][j] == s[i]);
            }
        }
        lemma_concatenated_parts(parts);
        let tail = concatenated(parts);
        let all = "field_"@ + tail;
        assert(all[0] == 'f');
        assert forall|j: int| 0 <= j < all.len() implies is_identifier_part(#[trigger] all[j]) by {
            if j >= 6 {
                assert(all[j] == tail[j - 6]);
            }
        }
    }
}

/// Writes the identifier that stands for the name `s`.
pub fn identifier_for(s: &str) -> (r: String)
    ensures
        r@ == identifier_of(s@),
{
    if c_identifier(s) {
        return String::from_str(s);
    }
    let x = chars_of(s);
    let mut parts: Vec<String> = Vec::new();
    let mut i: usize = 0;
    while i < x.len()
        invariant
            i <= x.len(),
            x@ == s@,
            parts.deep_view() == Seq::new(i as nat, |k: int| identifier_piece(s@, k)),
        decreases x.len() - i,
    {
        let ghost before = parts.deep_view();
        if identifier_part(x[i]) {
            parts.push(String::from_str(s.substring_char(i, i + 1)));
        } else {
            parts.push(String::from_str("_"));
        }
        i = i + 1;
        assert(parts.deep_view() =~= before.push(identifier_piece(s@, i - 1)));
        assert(parts.deep_view() =~= Seq::new(i as nat, |k: int| identifier_piece(s@, k)));
    }
    assert(parts.deep_view() =~= Seq::new(s@.len(), |k: int| identifier_piece(s@, k)));
    String::from_str("field_").concat(concat_all(&parts).as_str())
}

} // verus!
