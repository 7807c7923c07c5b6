use vstd::prelude::*;
use vstd::string::{StrSliceExecFns, StringExecFns};
use vstd::std_specs::iter::IteratorSpec;
use capitalize::Capitalize;
use crate::network::server_list::concat_all;
use crate::text::{char_is_whitespace, is_whitespace, join, joined, push_char, texts};

verus! {

/// What `capitalize::Capitalize::capitalize` makes of `s`.
pub uninterp spec fn capitalized(s: Seq<char>) -> Seq<char>;

/// `s` with its first char in upper case and the rest in lower case, as
/// `capitalize`'s `Capitalize::capitalize` writes it. The result is named by
/// `capitalized`, as it rests on Unicode's case tables; the contract adds
/// only that the empty text stays empty, as the source shows.
#[verifier::external_body]
pub(crate) fn capitalize_text(s: &str) -> (r: String)
    ensures
        r@ == capitalized(s@),
        s@.len() == 0 ==> r@.len() == 0,
{
    s.capitalize()
}

/// Whether a title is cut at `c`: whitespace, `-` and `_`.
pub open spec fn is_title_separator(c: char) -> bool {
    char_is_whitespace(c) || c == '-' || c == '_'
}

/// The words of `s`: the texts between separators, as `str::split` cuts
/// them, so that neighbouring separators leave an empty word between them.
pub open spec fn title_words(s: Seq<char>) -> Seq<Seq<char>>
    decreases s.len(),
{
    if s.len() == 0 {
        seq![Seq::empty()]
    } else {
        let words = title_words(s.drop_last());
        if is_title_separator(s.last()) {
            words.push(Seq::empty())
        } else {
            words.update(words.len() - 1, words.last().push(s.last()))
        }
    }
}

proof fn lemma_title_words_nonempty(s: Seq<char>)
    ensures
        title_words(s).len() > 0,
    decreases s.len(),
{
    if s.len() > 0 {
        lemma_title_words_nonempty(s.drop_last());
    }
}

/// The chars of `s` that are no title separator, in order.
pub open spec fn title_letters(s: Seq<char>) -> Seq<char> {
    s.filter(|c: char| !is_title_separator(c))
}

/// How many chars of `s` are title separators.
pub open spec fn separator_count(s: Seq<char>) -> nat {
    s.filter(|c: char| is_title_separator(c)).len()
}

proof fn lemma_concat_extends_last(w: Seq<Seq<char>>, c: char)
    requires
        w.len() > 0,
    ensures
        concat_all(w.update(w.len() - 1, w.last().push(c))) == concat_all(w).push(c),
{
    let u = w.update(w.len() - 1, w.last().push(c));
    assert(u.drop_last() =~= w.drop_last());
    assert(concat_all(w).push(c) =~= concat_all(w.drop_last()) + w.last().push(c));
}

/// Law: titles are cut at spaces, tabs, line breaks, `-` and `_`, and never
/// at a letter or a digit of the ASCII range.
pub proof fn lemma_which_chars_cut_titles(c: char)
    ensures
        c == ' ' || c == '\t' || c == '\n' || c == '-' || c == '_' ==> is_title_separator(c),
        ('0' <= c <= '9') || ('a' <= c <= 'z') || ('A' <= c <= 'Z') ==> !is_title_separator(c),
{
}

/// Law: a title is cut exactly at its separators (whitespace, `-`, `_`):
/// its words, one after the other, are all its other chars in order (no
/// char is dropped or added, digits included), no word holds a separator,
/// and there is one word more than there are separators.
pub proof fn lemma_title_cut_exactly_at_separators(s: Seq<char>)
    ensures
        concat_all(title_words(s)) == title_letters(s),
        title_words(s).len() == separator_count(s) + 1,
        forall|i: int, j: int| 0 <= i < title_words(s).len() && 0 <= j < title_words(s)[i].len()
            ==> !is_title_separator(#[trigger] title_words(s)[i][j]),
    decreases s.len(),
{
    reveal(Seq::filter);
    if s.len() == 0 {
        let one = seq![Seq::<char>::empty()];
        assert(one.drop_last() =~= Seq::<Seq<char>>::empty());
        reveal_with_fuel(concat_all, 2);
        assert(concat_all(one) =~= Seq::<char>::empty());
        assert(title_letters(s) =~= Seq::<char>::empty());
        assert(separator_count(s) == 0);
    } else {
        let t = s.drop_last();
        let c = s.last();
        lemma_title_cut_exactly_at_separators(t);
        lemma_title_words_nonempty(t);
        let w = title_words(t);
        assert(title_letters(s) == if is_title_separator(c) { title_letters(t) } else { title_letters(t).push(c) });
        assert(separator_count(s) == if is_title_separator(c) { separator_count(t) + 1 } else { separator_count(t) });
        if is_title_separator(c) {
            assert(w.push(Seq::empty()).drop_last() =~= w);
            assert(concat_all(w.push(Seq::empty())) =~= concat_all(w));
            assert(title_words(s) == w.push(Seq::empty()));
        } else {
            lemma_concat_extends_last(w, c);
            let v = w.update(w.len() - 1, w.last().push(c));
            assert(title_words(s) == v);
            assert forall|i: int, j: int| 0 <= i < v.len() && 0 <= j < v[i].len()
                implies !is_title_separator(#[trigger] v[i][j]) by {
                if i < v.len() - 1 {
                    assert(v[i] == w[i]);
                } else if j < w.last().len() {
                    assert(v[i][j] == w[i][j]);
                }
            }
        }
    }
}

/// The title made of `s`: each word capitalized, joined by single spaces.
pub open spec fn formatted_title(s: Seq<char>) -> Seq<char> {
    joined(title_words(s).map_values(|w: Seq<char>| capitalized(w)), seq![' '])
}

/// Makes a title of a file's name: cuts it at whitespace, `-` and `_`,
/// capitalizes each word and joins the words with spaces.
pub fn format_title(title: String) -> (r: String)
    ensures
        r@ == formatted_title(title@),
{
    let s = title.as_str();
    let n = s.unicode_len();
    let mut chars = s.chars();
    let mut words: Vec<String> = Vec::new();
    let mut current = String::new();
    let mut i: usize = 0;
    proof {
        vstd::string::axiom_spec_iter(s);
    }
    while i < n
        invariant
            n == s@.len(),
            i <= n,
            chars.remaining() == s@.skip(i as int),
            texts(words@).push(current@) == title_words(s@.take(i as int)),
        decreases n - i,
    {
        let ghost before = chars;
        let c = chars.next();
        proof {
            vstd::string::next_postcondition(&before, &chars, c);
            assert(s@.take(i + 1).drop_last() =~= s@.take(i as int));
            assert(s@.skip(i as int).drop_first() =~= s@.skip(i + 1));
            lemma_title_words_nonempty(s@.take(i as int));
        }
        match c {
            Some(ch) => {
                if is_whitespace(ch) || ch == '-' || ch == '_' {
                    let word = current;
                    current = String::new();
                    words.push(word);
                    proof {
                        assert(texts(words@).push(current@) =~= title_words(s@.take(i as int)).push(Seq::empty()));
                    }
                } else {
                    push_char(&mut current, ch);
                    proof {
                        let w = title_words(s@.take(i as int));
                        assert(texts(words@).push(current@) =~= w.update(w.len() - 1, w.last().push(ch)));
                    }
                }
            },
            None => {},
        }
        i = i + 1;
    }
    words.push(current);
    proof {
        assert(s@.take(n as int) =~= s@);
        assert(texts(words@) =~= title_words(s@));
    }
    let mut capitalized_words: Vec<String> = Vec::new();
    let mut j: usize = 0;
    while j < words.len()
        invariant
            j <= words@.len(),
            texts(words@) == title_words(s@),
            texts(capitalized_words@) == title_words(s@).take(j as int).map_values(|w: Seq<char>| capitalized(w)),
        decreases words@.len() - j,
    {
        let c = capitalize_text(words[j].as_str());
        let ghost prev = capitalized_words@;
        capitalized_words.push(c);
        proof {
            assert(texts(words@)[j as int] == words@[j as int]@);
            assert(texts(capitalized_words@) =~= texts(prev).push(c@));
            assert(texts(capitalized_words@) =~= title_words(s@).take(j + 1).map_values(|w: Seq<char>| capitalized(w)));
        }
        j = j + 1;
    }
    proof {
        assert(title_words(s@).take(words@.len() as int) =~= title_words(s@));
        reveal_strlit(" ");
    }
    let sep = " ";
    assert(sep@ =~= seq![' ']);
    join(&capitalized_words, sep)
}

} // verus!

verus! {

/// `name` up to its first `.` that is not its first char, or the whole of
/// `name` where there is none from place `i` on.
pub open spec fn prefix_before_dot(name: Seq<char>, i: int) -> Seq<char>
    decreases name.len() - i,
{
    if i >= name.len() {
        name
    } else if name[i] == '.' {
        name.take(i)
    } else {
        prefix_before_dot(name, i + 1)
    }
}

/// The prefix of a file's name, as `Path::file_prefix` documents it: the
/// part before the first `.` that does not begin the name, or the whole name
/// where there is none.
pub open spec fn file_prefix_text(name: Seq<char>) -> Seq<char> {
    prefix_before_dot(name, 1)
}

/// The prefix of the file name `name`: what comes before its first `.`,
/// a leading `.` belonging to the prefix.
pub fn file_prefix(name: &str) -> (r: String)
    ensures
        r@ == file_prefix_text(name@),
{
    let n = name.unicode_len();
    let mut chars = name.chars();
    let mut r = String::new();
    let mut i: usize = 0;
    proof {
        vstd::string::axiom_spec_iter(name);
    }
    while i < n
        invariant
            n == name@.len(),
            i <= n,
            chars.remaining() == name@.skip(i as int),
            r@ == name@.take(i as int),
            i >= 1 ==> prefix_before_dot(name@, 1) == prefix_before_dot(name@, i as int),
        decreases n - i,
    {
        let ghost before = chars;
        let c = chars.next();
        proof {
            vstd::string::next_postcondition(&before, &chars, c);
            assert(name@.skip(i as int).drop_first() =~= name@.skip(i + 1));
            assert(name@.skip(i as int)[0] == name@[i as int]);
        }
        match c {
            Some(ch) => {
                if i >= 1 && ch == '.' {
                    return r;
                }
                push_char(&mut r, ch);
                proof {
                    assert(r@ =~= name@.take(i + 1));
                }
            },
            None => {},
        }
        i = i + 1;
    }
    proof {
        assert(name@.take(n as int) =~= name@);
    }
    r
}

/// The title of a post: `title` where one is given, otherwise the title made
/// of the prefix of the file's name `file_name`.
pub fn post_title(title: Option<String>, file_name: &str) -> (r: String)
    ensures
        r@ == match title {
            Some(t) => t@,
            None => formatted_title(file_prefix_text(file_name@)),
        },
{
    match title {
        Some(t) => t,
        None => format_title(file_prefix(file_name)),
    }
}

} // verus!
