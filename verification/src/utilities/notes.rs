use vstd::prelude::*;

use vstd::string::StrSliceExecFns;

verus! {

/// The whitespace that surrounds a title: the Unicode white-space
/// characters, the set that char::is_whitespace counts.
pub open spec fn is_blank(c: char) -> bool {
    ||| c == ' '
    ||| c == '\t'
    ||| c == '\n'
    ||| c == '\u{B}'
    ||| c == '\u{C}'
    ||| c == '\r'
    ||| c == '\u{85}'
    ||| c == '\u{A0}'
    ||| c == '\u{1680}'
    ||| (0x2000 <= (c as u32) && (c as u32) <= 0x200A)
    ||| c == '\u{2028}'
    ||| c == '\u{2029}'
    ||| c == '\u{202F}'
    ||| c == '\u{205F}'
    ||| c == '\u{3000}'
}

/// The length of the text's first line: the number of characters before its
/// first line feed, or all of it when it has none.
pub open spec fn first_line_len(s: Seq<char>) -> int
    decreases s.len(),
{
    if s.len() == 0 {
        0
    } else if s[0] == '\n' {
        0
    } else {
        1 + first_line_len(s.drop_first())
    }
}

/// The text with its leading blanks removed.
pub open spec fn trim_front(s: Seq<char>) -> Seq<char>
    decreases s.len(),
{
    if s.len() == 0 {
        s
    } else if is_blank(s[0]) {
        trim_front(s.drop_first())
    } else {
        s
    }
}

/// The text with its trailing blanks removed.
pub open spec fn trim_back(s: Seq<char>) -> Seq<char>
    decreases s.len(),
{
    if s.len() == 0 {
        s
    } else if is_blank(s[s.len() - 1]) {
        trim_back(s.drop_last())
    } else {
        s
    }
}

/// The text with blanks removed on both sides.
pub open spec fn trimmed(s: Seq<char>) -> Seq<char> {
    trim_back(trim_front(s))
}

/// The note's title: on the trimmed first line, a primary markdown header's
/// text, trimmed and nonempty.  A line that does not start with '#', starts
/// with a deeper header, or carries nothing after the marker has no title.
pub open spec fn title_of(s: Seq<char>) -> Option<Seq<char>> {
    let line = trimmed(s.take(first_line_len(s)));
    if line.len() >= 1 && line[0] == '#' && !(line.len() >= 2 && line[1] == '#') {
        let t = trim_front(line.drop_first());
        if t.len() == 0 {
            None
        } else {
            Some(t)
        }
    } else {
        None
    }
}

pub(crate) fn is_blank_char(c: char) -> (r: bool)
    ensures
        r == is_blank(c),
{
    c == ' ' || c == '\t' || c == '\n' || c == '\u{B}' || c == '\u{C}' || c == '\r' || c == '\u{85}'
        || c == '\u{A0}' || c == '\u{1680}' || (0x2000 <= (c as u32) && (c as u32) <= 0x200A)
        || c == '\u{2028}' || c == '\u{2029}' || c == '\u{202F}' || c == '\u{205F}' || c
        == '\u{3000}'
}

/// An index before which no line feed stands, and which holds one or ends
/// the text, is the first line's length.
proof fn lemma_first_line_len_is(s: Seq<char>, i: int)
    requires
        0 <= i <= s.len(),
        forall|k: int| 0 <= k < i ==> s[k] != '\n',
        i < s.len() ==> s[i] == '\n',
    ensures
        first_line_len(s) == i,
    decreases i,
{
    if i > 0 {
        lemma_first_line_len_is(s.drop_first(), i - 1);
    }
}

/// An index before which all is blank, and which holds a non-blank or ends
/// the text, marks where the leading trim stops.
proof fn lemma_trim_front_is(s: Seq<char>, a: int)
    requires
        0 <= a <= s.len(),
        forall|k: int| 0 <= k < a ==> is_blank(s[k]),
        a < s.len() ==> !is_blank(s[a]),
    ensures
        trim_front(s) == s.subrange(a, s.len() as int),
    decreases a,
{
    if a == 0 {
        assert(s.subrange(0, s.len() as int) =~= s);
    } else {
        lemma_trim_front_is(s.drop_first(), a - 1);
        assert(s.drop_first().subrange(a - 1, s.drop_first().len() as int) =~= s.subrange(
            a,
            s.len() as int,
        ));
    }
}

/// An index from which all is blank, and whose predecessor is non-blank or
/// absent, marks where the trailing trim stops.
proof fn lemma_trim_back_is(s: Seq<char>, b: int)
    requires
        0 <= b <= s.len(),
        forall|k: int| b <= k < s.len() ==> is_blank(s[k]),
        b > 0 ==> !is_blank(s[b - 1]),
    ensures
        trim_back(s) == s.subrange(0, b),
    decreases s.len() - b,
{
    if b == s.len() {
        assert(s.subrange(0, b) =~= s);
    } else {
        lemma_trim_back_is(s.drop_last(), b);
        assert(s.drop_last().subrange(0, b) =~= s.subrange(0, b));
    }
}

/// The note's title, as `title_of` states it: the trimmed text of a primary
/// markdown header on the trimmed first line, if there is one.
pub fn get_title(markdown: &str) -> (r: Option<&str>)
    ensures
        r is Some <==> title_of(markdown@) is Some,
        r matches Some(t) ==> title_of(markdown@) == Some(t@),
{
    let ghost s = markdown@;
    let n = markdown.unicode_len();

    // The first line: everything before the first line feed.
    let mut nl: usize = 0;
    loop
        invariant
            s == markdown@,
            n == s.len(),
            nl <= n,
            forall|k: int| 0 <= k < nl ==> s[k] != '\n',
        ensures
            nl <= n,
            forall|k: int| 0 <= k < nl ==> s[k] != '\n',
            nl == n || s[nl as int] == '\n',
        decreases n - nl,
    {
        if nl == n {
            break ;
        }
        if markdown.get_char(nl) == '\n' {
            break ;
        }
        nl += 1;
    }
    proof {
        lemma_first_line_len_is(s, nl as int);
    }
    let ghost line = s.take(nl as int);

    // Trim the line's leading blanks.
    let mut a: usize = 0;
    loop
        invariant
            s == markdown@,
            n == s.len(),
            a <= nl <= n,
            forall|k: int| 0 <= k < a ==> is_blank(s[k]),
        ensures
            a <= nl,
            forall|k: int| 0 <= k < a ==> is_blank(s[k]),
            a == nl || !is_blank(s[a as int]),
        decreases nl - a,
    {
        if a == nl {
            break ;
        }
        if !is_blank_char(markdown.get_char(a)) {
            break ;
        }
        a += 1;
    }
    proof {
        lemma_trim_front_is(line, a as int);
        assert(line.subrange(a as int, line.len() as int) =~= s.subrange(a as int, nl as int));
    }

    // Trim the line's trailing blanks.
    let mut b: usize = nl;
    loop
        invariant
            s == markdown@,
            n == s.len(),
            a <= b <= nl <= n,
            forall|k: int| b <= k < nl ==> is_blank(s[k]),
        ensures
            a <= b <= nl,
            forall|k: int| b <= k < nl ==> is_blank(s[k]),
            b == a || !is_blank(s[b - 1]),
        decreases b,
    {
        if b == a {
            break ;
        }
        if !is_blank_char(markdown.get_char(b - 1)) {
            break ;
        }
        b -= 1;
    }
    proof {
        let front = s.subrange(a as int, nl as int);
        lemma_trim_back_is(front, b - a);
        assert(front.subrange(0, b - a) =~= s.subrange(a as int, b as int));
        assert(trimmed(line) == s.subrange(a as int, b as int));
    }
    let ghost line_t = s.subrange(a as int, b as int);

    // The trimmed line must carry a primary header: '#' not followed by '#'.
    if b == a || markdown.get_char(a) != '#' {
        return None;
    }
    if b - a >= 2 && markdown.get_char(a + 1) == '#' {
        return None;
    }

    // Trim the blanks between the marker and the title text.
    let mut a2: usize = a + 1;
    loop
        invariant
            s == markdown@,
            n == s.len(),
            a + 1 <= a2 <= b <= n,
            forall|k: int| a + 1 <= k < a2 ==> is_blank(s[k]),
        ensures
            a + 1 <= a2 <= b,
            forall|k: int| a + 1 <= k < a2 ==> is_blank(s[k]),
            a2 == b || !is_blank(s[a2 as int]),
        decreases b - a2,
    {
        if a2 == b {
            break ;
        }
        if !is_blank_char(markdown.get_char(a2)) {
            break ;
        }
        a2 += 1;
    }
    proof {
        assert(line_t.drop_first() =~= s.subrange(a + 1, b as int));
        lemma_trim_front_is(line_t.drop_first(), a2 - (a + 1));
        assert(line_t.drop_first().subrange(a2 - (a + 1), line_t.drop_first().len() as int)
            =~= s.subrange(a2 as int, b as int));
    }
    if a2 == b {
        return None;
    }
    Some(markdown.substring_char(a2, b))
}

} // verus!
