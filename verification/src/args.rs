//! Shell-like argument lists: the text format in which the launcher edits
//! Java and game arguments, and its parser.
//!
//! Arguments are separated by white space or commas outside quotes. Single
//! and double quotes group text; a backslash escapes the next character
//! (outside single quotes), with `\n` and `\t` standing for a newline and a
//! tab.
use vstd::prelude::*;
use crate::text::{chars_of, is_whitespace, is_ws, push_str, string_from_chars, string_push};

verus! {

/// The state of the argument scanner after some prefix of the input.
pub struct ArgScan {
    /// Arguments completed so far.
    pub args: Seq<Seq<char>>,
    /// The argument being read.
    pub cur: Seq<char>,
    pub in_single: bool,
    pub in_double: bool,
    /// Whether the previous character was an escaping backslash.
    pub esc: bool,
    /// Whether a quote was opened since the last argument was completed, so
    /// that the argument being read counts even when it is empty.
    pub started: bool,
}

/// The scanner state before any input.
pub open spec fn scan_start() -> ArgScan {
    ArgScan {
        args: Seq::empty(),
        cur: Seq::empty(),
        in_single: false,
        in_double: false,
        esc: false,
        started: false,
    }
}

/// The character that an escaped `c` stands for.
pub open spec fn unescape(c: char) -> char {
    if c == 'n' {
        '\n'
    } else if c == 't' {
        '\t'
    } else {
        c
    }
}

/// Whether `c` separates arguments when it stands outside quotes.
pub open spec fn is_separator(c: char) -> bool {
    is_ws(c) || c == ','
}

/// One step of the scanner on the character `ch`.
pub open spec fn scan_step(st: ArgScan, ch: char) -> ArgScan {
    if st.esc {
        ArgScan { cur: st.cur.push(unescape(ch)), esc: false, ..st }
    } else if ch == '\\' {
        if st.in_single {
            ArgScan { cur: st.cur.push('\\'), ..st }
        } else {
            ArgScan { esc: true, ..st }
        }
    } else if ch == '"' && !st.in_single {
        ArgScan { in_double: !st.in_double, started: true, ..st }
    } else if ch == '\'' && !st.in_double {
        ArgScan { in_single: !st.in_single, started: true, ..st }
    } else if is_separator(ch) && !st.in_single && !st.in_double {
        if st.cur.len() > 0 || st.started {
            ArgScan { args: st.args.push(st.cur), cur: Seq::empty(), started: false, ..st }
        } else {
            st
        }
    } else {
        ArgScan { cur: st.cur.push(ch), ..st }
    }
}

/// The scanner state after reading all of `s`, starting from `st`.
pub open spec fn scan_from(st: ArgScan, s: Seq<char>) -> ArgScan
    decreases s.len(),
{
    if s.len() == 0 {
        st
    } else {
        scan_step(scan_from(st, s.drop_last()), s.last())
    }
}

/// The arguments once the input has ended: the pending argument counts when
/// it is not empty or was quoted (so `""` is one empty argument).
pub open spec fn scan_finish(st: ArgScan) -> Seq<Seq<char>> {
    if st.cur.len() > 0 || st.started {
        st.args.push(st.cur)
    } else {
        st.args
    }
}

/// The argument list that a text denotes.
pub open spec fn parse_args_spec(s: Seq<char>) -> Seq<Seq<char>> {
    scan_finish(scan_from(scan_start(), s))
}

/// The views of a list of strings.
pub open spec fn views(v: Seq<String>) -> Seq<Seq<char>> {
    v.map_values(|a: String| a@)
}

/// An element of a sequence with one more element pushed is an element of
/// the sequence or the pushed one.
pub proof fn lemma_contains_push<A>(s: Seq<A>, x: A, n: A)
    ensures
        s.push(x).contains(n) <==> s.contains(n) || x == n,
{
    if s.contains(n) {
        let k = choose|k: int| 0 <= k < s.len() && s[k] == n;
        assert(s.push(x)[k] == n);
    }
    if x == n {
        assert(s.push(x)[s.len() as int] == n);
    }
    if s.push(x).contains(n) {
        let k = choose|k: int| 0 <= k < s.push(x).len() && s.push(x)[k] == n;
        if k < s.len() {
            assert(s[k] == n);
        }
    }
}

/// Parse a shell-like string into arguments, supporting quotes and escapes.
pub fn parse_shell_like_args(input: &str) -> (r: Vec<String>)
    ensures
        views(r@) == parse_args_spec(input@),
{
    let chars = chars_of(input);
    let mut args: Vec<String> = Vec::new();
    let mut cur: Vec<char> = Vec::new();
    let mut in_single = false;
    let mut in_double = false;
    let mut esc = false;
    let mut started = false;
    let mut i: usize = 0;
    assert(input@.take(0) =~= Seq::<char>::empty());
    assert(views(args@) =~= Seq::<Seq<char>>::empty());
    while i < chars.len()
        invariant
            chars@ == input@,
            i <= chars@.len(),
            (ArgScan {
                args: views(args@),
                cur: cur@,
                in_single: in_single,
                in_double: in_double,
                esc: esc,
                started: started,
            }) == scan_from(scan_start(), input@.take(i as int)),
        decreases chars.len() - i,
    {
        let ch = chars[i];
        let ghost before = ArgScan {
            args: views(args@),
            cur: cur@,
            in_single: in_single,
            in_double: in_double,
            esc: esc,
            started: started,
        };
        assert(input@.take(i + 1).drop_last() =~= input@.take(i as int));
        if esc {
            let u = if ch == 'n' {
                '\n'
            } else if ch == 't' {
                '\t'
            } else {
                ch
            };
            cur.push(u);
            esc = false;
        } else if ch == '\\' {
            if in_single {
                cur.push('\\');
            } else {
                esc = true;
            }
        } else if ch == '"' && !in_single {
            in_double = !in_double;
            started = true;
        } else if ch == '\'' && !in_double {
            in_single = !in_single;
            started = true;
        } else if (is_whitespace(ch) || ch == ',') && !in_single && !in_double {
            if cur.len() > 0 || started {
                let a = string_from_chars(cur.as_slice());
                args.push(a);
                assert(views(args@) =~= before.args.push(before.cur));
                cur = Vec::new();
                started = false;
            }
        } else {
            cur.push(ch);
        }
        proof {
            assert(scan_step(before, ch) == scan_from(scan_start(), input@.take(i + 1)));
            assert(cur@ =~= scan_step(before, ch).cur);
            assert(views(args@) =~= scan_step(before, ch).args);
        }
        i += 1;
    }
    assert(input@.take(chars@.len() as int) =~= input@);
    if cur.len() > 0 || started {
        let ghost before = views(args@);
        let a = string_from_chars(cur.as_slice());
        args.push(a);
        assert(views(args@) =~= before.push(cur@));
    }
    args
}

/// `a` with every double quote preceded by a backslash.
pub open spec fn escape_quotes(a: Seq<char>) -> Seq<char>
    decreases a.len(),
{
    if a.len() == 0 {
        Seq::empty()
    } else if a.last() == '"' {
        escape_quotes(a.drop_last()) + seq!['\\', '"']
    } else {
        escape_quotes(a.drop_last()).push(a.last())
    }
}

/// Whether `a` holds a separator character.
pub open spec fn has_separator(a: Seq<char>) -> bool {
    exists|k: int| 0 <= k < a.len() && is_separator(#[trigger] a[k])
}

/// How one argument is written in the editable text: an empty argument as
/// `""`, one holding a separator between double quotes (with its double
/// quotes escaped), any other as it is.
pub open spec fn quote_arg(a: Seq<char>) -> Seq<char> {
    if a.len() == 0 {
        seq!['"', '"']
    } else if has_separator(a) {
        seq!['"'] + escape_quotes(a) + seq!['"']
    } else {
        a
    }
}

/// The editable text of an argument list: the written arguments joined by
/// commas.
pub open spec fn format_args_spec(args: Seq<Seq<char>>) -> Seq<char>
    decreases args.len(),
{
    if args.len() == 0 {
        Seq::empty()
    } else if args.len() == 1 {
        quote_arg(args[0])
    } else {
        format_args_spec(args.drop_last()) + seq![','] + quote_arg(args.last())
    }
}

/// Whether `a` holds a separator (executable).
fn holds_separator(a: &[char]) -> (r: bool)
    ensures
        r == has_separator(a@),
{
    let mut k: usize = 0;
    while k < a.len()
        invariant
            k <= a@.len(),
            forall|m: int| 0 <= m < k ==> !is_separator(#[trigger] a@[m]),
        decreases a.len() - k,
    {
        if is_whitespace(a[k]) || a[k] == ',' {
            return true;
        }
        k += 1;
    }
    false
}

/// Appends the written form of one argument (see `quote_arg`) to `out`.
fn push_quoted_arg(out: &mut String, a: &str)
    ensures
        final(out)@ == old(out)@ + quote_arg(a@),
{
    let v = chars_of(a);
    if v.len() == 0 {
        string_push(out, '"');
        string_push(out, '"');
        assert(old(out)@ + quote_arg(a@) =~= old(out)@.push('"').push('"'));
    } else if holds_separator(v.as_slice()) {
        string_push(out, '"');
        let ghost start = out@;
        let mut k: usize = 0;
        while k < v.len()
            invariant
                v@ == a@,
                k <= v@.len(),
                out@ == start + escape_quotes(v@.take(k as int)),
            decreases v.len() - k,
        {
            assert(v@.take(k + 1).drop_last() =~= v@.take(k as int));
            if v[k] == '"' {
                string_push(out, '\\');
                string_push(out, '"');
                assert(out@ =~= start + escape_quotes(v@.take(k + 1)));
            } else {
                string_push(out, v[k]);
                assert(out@ =~= start + escape_quotes(v@.take(k + 1)));
            }
            k += 1;
        }
        assert(v@.take(v@.len() as int) =~= v@);
        string_push(out, '"');
        assert(final(out)@ =~= old(out)@ + quote_arg(a@));
    } else {
        push_str(out, a);
    }
}

/// The editable text for an argument list (see `format_args_spec`), as the
/// argument editors show it.
pub fn format_args_for_edit(args: &Vec<String>) -> (r: String)
    ensures
        r@ == format_args_spec(views(args@)),
{
    let mut out = String::new();
    let mut i: usize = 0;
    while i < args.len()
        invariant
            i <= args@.len(),
            out@ == format_args_spec(views(args@).take(i as int)),
        decreases args.len() - i,
    {
        let ghost pre = views(args@).take(i as int);
        let ghost next = views(args@).take(i + 1);
        assert(next.drop_last() =~= pre);
        if i > 0 {
            string_push(&mut out, ',');
        }
        push_quoted_arg(&mut out, args[i].as_str());
        proof {
            if i > 0 {
                assert(out@ =~= format_args_spec(pre) + seq![','] + quote_arg(next.last()));
            } else {
                assert(pre.len() == 0);
                assert(out@ =~= quote_arg(next[0]));
            }
        }
        i += 1;
    }
    assert(views(args@).take(args@.len() as int) =~= views(args@));
    out
}

/// Reading `a + b` from `st` is reading `b` from where `a` left off.
pub proof fn lemma_scan_concat(st: ArgScan, a: Seq<char>, b: Seq<char>)
    ensures
        scan_from(st, a + b) == scan_from(scan_from(st, a), b),
    decreases b.len(),
{
    if b.len() == 0 {
        assert(a + b =~= a);
    } else {
        assert((a + b).drop_last() =~= a + b.drop_last());
        lemma_scan_concat(st, a, b.drop_last());
    }
}

/// A scanner state with no pending escape or single quote.
pub open spec fn plain_state(
    args: Seq<Seq<char>>,
    cur: Seq<char>,
    in_double: bool,
    started: bool,
) -> ArgScan {
    ArgScan {
        args: args,
        cur: cur,
        in_single: false,
        in_double: in_double,
        esc: false,
        started: started,
    }
}

/// Whether an argument is written between double quotes: it is empty or
/// holds a separator.
pub open spec fn written_quoted(a: Seq<char>) -> bool {
    a.len() == 0 || has_separator(a)
}

/// Whether an argument survives being written and read back: it holds no
/// quote or backslash.
pub open spec fn round_trips(a: Seq<char>) -> bool {
    forall|k: int| 0 <= k < a.len() ==> #[trigger] a[k] != '"' && a[k] != '\'' && a[k] != '\\'
}

proof fn lemma_scan_plain_chars(
    args: Seq<Seq<char>>,
    cur: Seq<char>,
    a: Seq<char>,
    in_double: bool,
    started: bool,
)
    requires
        forall|k: int| 0 <= k < a.len() ==> #[trigger] a[k] != '"' && a[k] != '\'' && a[k] != '\\',
        !in_double ==> forall|k: int| 0 <= k < a.len() ==> !is_separator(#[trigger] a[k]),
    ensures
        scan_from(plain_state(args, cur, in_double, started), a) == plain_state(
            args,
            cur + a,
            in_double,
            started,
        ),
    decreases a.len(),
{
    if a.len() == 0 {
        assert(cur + a =~= cur);
    } else {
        lemma_scan_plain_chars(args, cur, a.drop_last(), in_double, started);
        assert(cur + a.drop_last() + seq![a.last()] =~= cur + a);
        assert((cur + a.drop_last()).push(a.last()) =~= cur + a);
    }
}

proof fn lemma_escape_quotes_noop(a: Seq<char>)
    requires
        forall|k: int| 0 <= k < a.len() ==> #[trigger] a[k] != '"',
    ensures
        escape_quotes(a) == a,
    decreases a.len(),
{
    if a.len() > 0 {
        lemma_escape_quotes_noop(a.drop_last());
        assert(a.drop_last().push(a.last()) =~= a);
    }
}

/// Reading the written form of one round-tripping argument from a clean
/// state leaves exactly that argument pending.
proof fn lemma_scan_quoted(args: Seq<Seq<char>>, a: Seq<char>)
    requires
        round_trips(a),
    ensures
        scan_from(plain_state(args, Seq::empty(), false, false), quote_arg(a)) == plain_state(
            args,
            a,
            false,
            written_quoted(a),
        ),
{
    let empty = Seq::<char>::empty();
    if written_quoted(a) {
        lemma_escape_quotes_noop(a);
        let open_q = seq!['"'];
        let st0 = plain_state(args, empty, false, false);
        lemma_scan_concat(st0, open_q + a, seq!['"']);
        lemma_scan_concat(st0, open_q, a);
        assert(open_q.drop_last() =~= empty);
        assert(scan_from(st0, open_q.drop_last()) == st0);
        assert(open_q.last() == '"');
        assert(scan_from(st0, open_q) == plain_state(args, empty, true, true));
        lemma_scan_plain_chars(args, empty, a, true, true);
        assert(empty + a =~= a);
        assert(seq!['"'].drop_last() =~= empty);
        let mid_q = plain_state(args, a, true, true);
        assert(scan_from(mid_q, seq!['"'].drop_last()) == mid_q);
        assert(seq!['"'].last() == '"');
        assert(scan_from(mid_q, seq!['"']) == plain_state(args, a, false, true));
        assert(open_q + a + seq!['"'] =~= quote_arg(a));
    } else {
        lemma_scan_plain_chars(args, empty, a, false, false);
        assert(empty + a =~= a);
    }
}

/// Reading the written form of a non-empty list of round-tripping arguments
/// leaves all of them read, the last one still pending.
proof fn lemma_scan_format(acc: Seq<Seq<char>>, args: Seq<Seq<char>>)
    requires
        args.len() > 0,
        forall|i: int| 0 <= i < args.len() ==> round_trips(#[trigger] args[i]),
    ensures
        scan_from(plain_state(acc, Seq::empty(), false, false), format_args_spec(args))
            == plain_state(acc + args.drop_last(), args.last(), false, written_quoted(args.last())),
    decreases args.len(),
{
    let empty = Seq::<char>::empty();
    if args.len() == 1 {
        lemma_scan_quoted(acc, args[0]);
        assert(acc + args.drop_last() =~= acc);
    } else {
        let front = args.drop_last();
        assert forall|i: int| 0 <= i < front.len() implies round_trips(#[trigger] front[i]) by {
            assert(front[i] == args[i]);
        }
        lemma_scan_format(acc, front);
        let st0 = plain_state(acc, empty, false, false);
        let mid = plain_state(
            acc + front.drop_last(),
            front.last(),
            false,
            written_quoted(front.last()),
        );
        lemma_scan_concat(st0, format_args_spec(front) + seq![','], quote_arg(args.last()));
        lemma_scan_concat(st0, format_args_spec(front), seq![',']);
        assert(seq![','].drop_last() =~= empty);
        assert(scan_from(mid, seq![','].drop_last()) == mid);
        assert(seq![','].last() == ',');
        assert(is_separator(','));
        assert(front.last().len() > 0 || written_quoted(front.last()));
        assert((acc + front.drop_last()).push(front.last()) =~= acc + front);
        assert(scan_from(mid, seq![',']) == plain_state(acc + front, empty, false, false));
        assert(round_trips(args.last()));
        lemma_scan_quoted(acc + front, args.last());
    }
}

/// Writing an argument list into its editable text and parsing that text
/// back gives the same list, for arguments that hold no quote or backslash
/// (an empty argument is written as `""` and read back as empty).
pub proof fn law_format_then_parse(args: Seq<Seq<char>>)
    requires
        forall|i: int| 0 <= i < args.len() ==> round_trips(#[trigger] args[i]),
    ensures
        parse_args_spec(format_args_spec(args)) == args,
{
    if args.len() == 0 {
        assert(scan_finish(scan_start()) =~= args);
    } else {
        lemma_scan_format(Seq::empty(), args);
        assert(scan_start() == plain_state(Seq::empty(), Seq::empty(), false, false));
        assert(round_trips(args.last()));
        assert(args.last().len() > 0 || written_quoted(args.last()));
        assert((Seq::<Seq<char>>::empty() + args.drop_last()).push(args.last()) =~= args);
    }
}

/// The words of a text cut at white space and commas, and the word being
/// read at its end (the plain split, empty pieces left out).
pub open spec fn split_words_acc(s: Seq<char>) -> (Seq<Seq<char>>, Seq<char>)
    decreases s.len(),
{
    if s.len() == 0 {
        (Seq::empty(), Seq::empty())
    } else {
        let (words, cur) = split_words_acc(s.drop_last());
        if is_separator(s.last()) {
            if cur.len() > 0 {
                (words.push(cur), Seq::empty())
            } else {
                (words, Seq::empty())
            }
        } else {
            (words, cur.push(s.last()))
        }
    }
}

/// The non-empty pieces of a text split at white space and commas.
pub open spec fn split_words(s: Seq<char>) -> Seq<Seq<char>> {
    let (words, cur) = split_words_acc(s);
    if cur.len() > 0 {
        words.push(cur)
    } else {
        words
    }
}

/// Whether a text holds no quote or backslash.
pub open spec fn quote_free(s: Seq<char>) -> bool {
    forall|k: int| 0 <= k < s.len() ==> #[trigger] s[k] != '"' && s[k] != '\'' && s[k] != '\\'
}

proof fn lemma_scan_quote_free(s: Seq<char>)
    requires
        quote_free(s),
    ensures
        scan_from(scan_start(), s) == plain_state(
            split_words_acc(s).0,
            split_words_acc(s).1,
            false,
            false,
        ),
    decreases s.len(),
{
    if s.len() > 0 {
        assert(quote_free(s.drop_last()));
        lemma_scan_quote_free(s.drop_last());
        assert(s[s.len() - 1] == s.last());
    }
}

/// A text without quotes or backslashes parses to its plain split at white
/// space and commas, empty pieces left out.
pub proof fn law_quote_free_parse_is_split(s: Seq<char>)
    requires
        quote_free(s),
    ensures
        parse_args_spec(s) == split_words(s),
{
    lemma_scan_quote_free(s);
}

/// Reading text without double quotes or backslashes inside an open double
/// quote keeps every character, apostrophes and separators included.
proof fn lemma_scan_in_double(args: Seq<Seq<char>>, cur: Seq<char>, a: Seq<char>, started: bool)
    requires
        forall|k: int| 0 <= k < a.len() ==> #[trigger] a[k] != '"' && a[k] != '\\',
    ensures
        scan_from(plain_state(args, cur, true, started), a) == plain_state(args, cur + a, true, started),
    decreases a.len(),
{
    if a.len() == 0 {
        assert(cur + a =~= cur);
    } else {
        lemma_scan_in_double(args, cur, a.drop_last(), started);
        assert(a[a.len() - 1] == a.last());
        assert((cur + a.drop_last()).push(a.last()) =~= cur + a);
    }
}

/// Reading quote-free text from a clean state with some arguments already
/// read adds the words of its plain split.
proof fn lemma_scan_quote_free_from(acc: Seq<Seq<char>>, b: Seq<char>)
    requires
        quote_free(b),
    ensures
        scan_from(plain_state(acc, Seq::empty(), false, false), b) == plain_state(
            acc + split_words_acc(b).0,
            split_words_acc(b).1,
            false,
            false,
        ),
    decreases b.len(),
{
    if b.len() == 0 {
        assert(acc + Seq::<Seq<char>>::empty() =~= acc);
    } else {
        assert(quote_free(b.drop_last()));
        lemma_scan_quote_free_from(acc, b.drop_last());
        assert(b[b.len() - 1] == b.last());
        let (w, c) = split_words_acc(b.drop_last());
        assert((acc + w).push(c) =~= acc + w.push(c));
    }
}

/// Reading one character from a state.
proof fn lemma_scan_one(st: ArgScan, c: char)
    ensures
        scan_from(st, seq![c]) == scan_step(st, c),
{
    assert(seq![c].drop_last() =~= Seq::<char>::empty());
    assert(scan_from(st, seq![c].drop_last()) == st);
    assert(seq![c].last() == c);
}

/// Inside double quotes an apostrophe is an ordinary character (it opens no
/// single quote), and so are white space and commas: a double-quoted text
/// without double quotes or backslashes is read as one argument, exactly
/// that text; after the closing quote and a space, quote-free text is read
/// as its plain split (so `"Steve's World" -x` gives `Steve's World` and
/// `-x`).
pub proof fn law_double_quotes_keep_apostrophes(a: Seq<char>, b: Seq<char>)
    requires
        forall|k: int| 0 <= k < a.len() ==> #[trigger] a[k] != '"' && a[k] != '\\',
        quote_free(b),
    ensures
        parse_args_spec(seq!['"'] + a + seq!['"']) == seq![a],
        parse_args_spec(seq!['"'] + a + seq!['"'] + seq![' '] + b) == seq![a] + split_words(b),
{
    let e = Seq::<Seq<char>>::empty();
    let z = Seq::<char>::empty();
    let q = seq!['"'];
    let st0 = scan_start();
    assert(st0 == plain_state(e, z, false, false));
    lemma_scan_one(st0, '"');
    let st1 = plain_state(e, z, true, true);
    assert(scan_from(st0, q) == st1);
    lemma_scan_in_double(e, z, a, true);
    assert(z + a =~= a);
    let st2 = plain_state(e, a, true, true);
    lemma_scan_concat(st0, q, a);
    assert(scan_from(st0, q + a) == st2);
    lemma_scan_one(st2, '"');
    let st3 = plain_state(e, a, false, true);
    lemma_scan_concat(st0, q + a, q);
    assert(scan_from(st0, q + a + q) == st3);
    assert(scan_finish(st3) =~= seq![a]);
    assert(is_ws(' '));
    lemma_scan_one(st3, ' ');
    let st4 = plain_state(seq![a], z, false, false);
    assert(e.push(a) =~= seq![a]);
    assert(scan_step(st3, ' ') == st4);
    lemma_scan_concat(st0, q + a + q, seq![' ']);
    assert(scan_from(st0, q + a + q + seq![' ']) == st4);
    lemma_scan_quote_free_from(seq![a], b);
    lemma_scan_concat(st0, q + a + q + seq![' '], b);
    let (w, c) = split_words_acc(b);
    if c.len() > 0 {
        assert((seq![a] + w).push(c) =~= seq![a] + w.push(c));
    }
}

/// Plain single-quote state: a single quote open, nothing escaped.
proof fn lemma_scan_in_single(args: Seq<Seq<char>>, cur: Seq<char>, a: Seq<char>, started: bool)
    requires
        forall|k: int| 0 <= k < a.len() ==> #[trigger] a[k] != '\'',
    ensures
        scan_from(
            ArgScan { args, cur, in_single: true, in_double: false, esc: false, started },
            a,
        ) == (ArgScan { args, cur: cur + a, in_single: true, in_double: false, esc: false, started }),
    decreases a.len(),
{
    if a.len() == 0 {
        assert(cur + a =~= cur);
    } else {
        lemma_scan_in_single(args, cur, a.drop_last(), started);
        assert(a[a.len() - 1] == a.last());
        assert((cur + a.drop_last()).push(a.last()) =~= cur + a);
    }
}

/// Inside single quotes every character but the single quote is taken as
/// it is: double quotes, backslashes, white space and commas included; so a
/// single-quoted text without single quotes is read as one argument,
/// exactly that text.
pub proof fn law_single_quotes_are_literal(a: Seq<char>)
    requires
        forall|k: int| 0 <= k < a.len() ==> #[trigger] a[k] != '\'',
    ensures
        parse_args_spec(seq!['\''] + a + seq!['\'']) == seq![a],
{
    let e = Seq::<Seq<char>>::empty();
    let z = Seq::<char>::empty();
    let q = seq!['\''];
    let st0 = scan_start();
    lemma_scan_one(st0, '\'');
    let st1 = ArgScan { args: e, cur: z, in_single: true, in_double: false, esc: false, started: true };
    assert(scan_from(st0, q) == st1);
    lemma_scan_in_single(e, z, a, true);
    assert(z + a =~= a);
    let st2 = ArgScan { args: e, cur: a, in_single: true, in_double: false, esc: false, started: true };
    lemma_scan_concat(st0, q, a);
    lemma_scan_one(st2, '\'');
    lemma_scan_concat(st0, q + a, q);
    assert(scan_from(st0, q + a + q) == plain_state(e, a, false, true));
    assert(scan_finish(plain_state(e, a, false, true)) =~= seq![a]);
}

/// A backslash outside quotes makes the next character part of the
/// argument: `\n` stands for a newline, `\t` for a tab, and any other
/// character for itself (a quote, a separator or a backslash included).
pub proof fn law_backslash_escapes(c: char)
    ensures
        parse_args_spec(seq!['\\', c]) == seq![seq![if c == 'n' { '\n' } else if c == 't' { '\t' } else { c }]],
{
    let st0 = scan_start();
    assert(seq!['\\', c] =~= seq!['\\'] + seq![c]);
    lemma_scan_one(st0, '\\');
    lemma_scan_concat(st0, seq!['\\'], seq![c]);
    let st1 = scan_step(st0, '\\');
    lemma_scan_one(st1, c);
    let st2 = scan_step(st1, c);
    assert(st2.cur =~= seq![if c == 'n' { '\n' } else if c == 't' { '\t' } else { c }]);
    assert(scan_finish(st2) =~= seq![st2.cur]);
}

} // verus!
