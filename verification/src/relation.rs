//! The relation names of a `Link` header, as they are written.
//!
//! A header is cut into segments at every `;` and `,` that stands outside
//! double quotes. A segment whose first character that is not blank is `<`
//! opens an entry. A later segment of the form `rel=value` gives the entry
//! its relations, unless it has some already. The names are the words of
//! the value: its runs of characters between blanks, double quotes and the
//! ends. Names are read letter by letter: `NEXT` is not `next`.

use vstd::prelude::*;

verus! {

/// The characters of a text, one by one.
pub(crate) fn chars_of(text: &str) -> (r: Vec<char>)
    ensures
        r@ == text@,
{
    let mut chars: Vec<char> = Vec::new();
    for c in it: text.chars()
        invariant
            it.seq() == text@,
            chars@ == it.seq().subrange(0, it.index()),
    {
        chars.push(c);
        assert(chars@ =~= it.seq().subrange(0, it.index() + 1));
    }
    assert(chars@ =~= text@);
    chars
}

/// The characters of `s` from `from` up to `to`.
fn copy_range(s: &Vec<char>, from: usize, to: usize) -> (r: Vec<char>)
    requires
        from <= to <= s.len(),
    ensures
        r@ == s@.subrange(from as int, to as int),
{
    let mut r: Vec<char> = Vec::new();
    let mut i: usize = from;
    while i < to
        invariant
            from <= i <= to <= s.len(),
            r@ == s@.subrange(from as int, i as int),
        decreases to - i,
    {
        r.push(s[i]);
        assert(r@ =~= s@.subrange(from as int, i + 1));
        i = i + 1;
    }
    r
}

/// A space, a tab, a line feed or a carriage return.
pub open spec fn blank(c: char) -> bool {
    c == ' ' || c == '\t' || c == '\n' || c == '\r'
}

/// Every character of `s` from `from` up to `to` is blank.
pub open spec fn blanks(s: Seq<char>, from: int, to: int) -> bool {
    forall|k: int| from <= k < to ==> blank(#[trigger] s[k])
}

fn is_blank(c: char) -> (r: bool)
    ensures
        r == blank(c),
{
    c == ' ' || c == '\t' || c == '\n' || c == '\r'
}

/// The number of characters from `i` on that stand before the first `;` or
/// `,` outside double quotes. `quoted` says whether `i` is inside quotes.
pub open spec fn run(s: Seq<char>, i: int, quoted: bool) -> nat
    decreases s.len() - i,
{
    if i < 0 || i >= s.len() {
        0
    } else {
        let inside = quoted != (s[i] == '"');
        if !inside && (s[i] == ';' || s[i] == ',') {
            0
        } else {
            1 + run(s, i + 1, inside)
        }
    }
}

/// The segments of `s` from `from` on, in order.
pub open spec fn segments(s: Seq<char>, from: int) -> Seq<Seq<char>>
    decreases s.len() - from,
{
    if from < 0 || from >= s.len() {
        Seq::empty()
    } else {
        let end = from + run(s, from, false);
        if end < s.len() {
            seq![s.subrange(from, end)] + segments(s, end + 1)
        } else {
            seq![s.subrange(from, end)]
        }
    }
}

/// Where the segment that begins at `from` ends.
fn segment_end(s: &Vec<char>, from: usize) -> (end: usize)
    requires
        from <= s.len(),
    ensures
        end == from + run(s@, from as int, false),
        from <= end <= s.len(),
{
    let mut i: usize = from;
    let mut quoted = false;
    while i < s.len()
        invariant
            from <= i <= s.len(),
            from + run(s@, from as int, false) == i + run(s@, i as int, quoted),
        decreases s.len() - i,
    {
        let c = s[i];
        let inside = quoted != (c == '"');
        if !inside && (c == ';' || c == ',') {
            return i;
        }
        quoted = inside;
        i = i + 1;
    }
    i
}

/// The segment opens an entry: its first character that is not blank is
/// `<`.
pub open spec fn is_target(g: Seq<char>) -> bool {
    exists|i: int| #[trigger] blanks(g, 0, i) && 0 <= i < g.len() && g[i] == '<'
}

fn opens_entry(g: &Vec<char>) -> (r: bool)
    ensures
        r == is_target(g@),
{
    let mut i: usize = 0;
    while i < g.len() && is_blank(g[i])
        invariant
            i <= g.len(),
            blanks(g@, 0, i as int),
        decreases g.len() - i,
    {
        i = i + 1;
    }
    let r = i < g.len() && g[i] == '<';
    proof {
        if r {
            assert(blanks(g@, 0, i as int) && g@[i as int] == '<');
        } else {
            assert forall|k: int|
                !(#[trigger] blanks(g@, 0, k) && 0 <= k < g@.len() && g@[k] == '<') by {
                if blanks(g@, 0, k) && 0 <= k < g@.len() && g@[k] == '<' {
                    if k < i {
                        assert(blank(g@[k]));
                    } else if k > i {
                        assert(blank(g@[i as int]));
                    }
                }
            }
        }
    }
    r
}

/// The number of characters from `i` on that stand before the first `=`.
pub open spec fn name_len(g: Seq<char>, i: int) -> nat
    decreases g.len() - i,
{
    if i < 0 || i >= g.len() || g[i] == '=' {
        0
    } else {
        1 + name_len(g, i + 1)
    }
}

fn name_end(g: &Vec<char>) -> (end: usize)
    ensures
        end == name_len(g@, 0),
        end <= g.len(),
{
    let mut i: usize = 0;
    while i < g.len() && g[i] != '='
        invariant
            i <= g.len(),
            name_len(g@, 0) == i + name_len(g@, i as int),
        decreases g.len() - i,
    {
        i = i + 1;
    }
    i
}

/// The three characters of `n` from `a` on spell `rel`, in either case.
pub open spec fn spells_rel(n: Seq<char>, a: int) -> bool {
    &&& n[a] == 'r' || n[a] == 'R'
    &&& n[a + 1] == 'e' || n[a + 1] == 'E'
    &&& n[a + 2] == 'l' || n[a + 2] == 'L'
}

/// The text is `rel` in either case, with nothing but blanks around it.
pub open spec fn is_rel_name(n: Seq<char>) -> bool {
    exists|a: int|
        #[trigger] blanks(n, 0, a) && 0 <= a && a + 3 <= n.len() && spells_rel(n, a) && blanks(
            n,
            a + 3,
            n.len() as int,
        )
}

fn names_rel(n: &Vec<char>) -> (r: bool)
    ensures
        r == is_rel_name(n@),
{
    let mut a: usize = 0;
    while a < n.len() && is_blank(n[a])
        invariant
            a <= n.len(),
            blanks(n@, 0, a as int),
        decreases n.len() - a,
    {
        a = a + 1;
    }
    let mut r = false;
    if n.len() - a >= 3 {
        let spelled = (n[a] == 'r' || n[a] == 'R') && (n[a + 1] == 'e' || n[a + 1] == 'E') && (n[a
            + 2] == 'l' || n[a + 2] == 'L');
        if spelled {
            let mut b: usize = a + 3;
            while b < n.len() && is_blank(n[b])
                invariant
                    a + 3 <= b <= n.len(),
                    blanks(n@, a + 3, b as int),
                decreases n.len() - b,
            {
                b = b + 1;
            }
            r = b == n.len();
            proof {
                if !r {
                    assert(!blank(n@[b as int]));
                    assert(!blanks(n@, a + 3, n@.len() as int));
                }
            }
        }
    }
    proof {
        if r {
            assert(blanks(n@, 0, a as int) && spells_rel(n@, a as int));
        } else {
            assert forall|k: int|
                !(#[trigger] blanks(n@, 0, k) && 0 <= k && k + 3 <= n@.len() && spells_rel(n@, k)
                    && blanks(n@, k + 3, n@.len() as int)) by {
                if blanks(n@, 0, k) && 0 <= k && k + 3 <= n@.len() && spells_rel(n@, k) {
                    if k < a {
                        assert(blank(n@[k]));
                    } else if k > a {
                        assert(blank(n@[a as int]));
                    }
                }
            }
        }
    }
    r
}

/// The segment is a parameter named `rel`: the text before its first `=`
/// is `rel` in either case, with nothing but blanks around it.
pub open spec fn is_rel(g: Seq<char>) -> bool {
    is_rel_name(g.subrange(0, name_len(g, 0) as int))
}

/// What stands behind the first `=` of a segment; nothing where there is
/// no `=`.
pub open spec fn rel_value(g: Seq<char>) -> Seq<char> {
    if name_len(g, 0) < g.len() {
        g.subrange(name_len(g, 0) as int + 1, g.len() as int)
    } else {
        Seq::empty()
    }
}

/// The entries after one more segment: a target opens an entry without
/// relations, a `rel` parameter gives them to the last entry if it has none
/// yet, and any other segment leaves the entries as they are.
pub open spec fn with_segment(entries: Seq<Option<Seq<char>>>, g: Seq<char>) -> Seq<
    Option<Seq<char>>,
> {
    if is_target(g) {
        entries.push(None)
    } else if is_rel(g) && entries.len() > 0 && entries.last() is None {
        entries.update(entries.len() - 1, Some(rel_value(g)))
    } else {
        entries
    }
}

/// The entries that a list of segments describes: for each, the value of
/// its `rel` parameter, if it has one.
pub open spec fn relations(list: Seq<Seq<char>>) -> Seq<Option<Seq<char>>>
    decreases list.len(),
{
    if list.len() == 0 {
        Seq::empty()
    } else {
        with_segment(relations(list.drop_last()), list.last())
    }
}

/// The entries of a header as written: for each, the value of its `rel`
/// parameter, if it has one.
pub open spec fn written(header: Seq<char>) -> Seq<Option<Seq<char>>> {
    relations(segments(header, 0))
}

/// The texts of a list of optional values.
pub open spec fn values(list: Seq<Option<Vec<char>>>) -> Seq<Option<Seq<char>>> {
    Seq::new(
        list.len(),
        |i: int|
            match list[i] {
                Some(v) => Some(v@),
                None => None,
            },
    )
}

fn add_segment(entries: &mut Vec<Option<Vec<char>>>, g: &Vec<char>)
    ensures
        values(final(entries)@) == with_segment(values(old(entries)@), g@),
{
    let ghost before = values(entries@);
    if opens_entry(g) {
        entries.push(None);
        assert(values(entries@) =~= before.push(None));
    } else {
        let end = name_end(g);
        let name = copy_range(g, 0, end);
        let n = entries.len();
        if names_rel(&name) && n > 0 && entries[n - 1].is_none() {
            let value = if end < g.len() {
                copy_range(g, end + 1, g.len())
            } else {
                Vec::new()
            };
            assert(value@ =~= rel_value(g@));
            assert(before.last() is None);
            entries.set(n - 1, Some(value));
            assert(values(entries@) =~= before.update(n - 1, Some(rel_value(g@))));
        } else {
            assert(n > 0 ==> (before.last() is None <==> entries@[n - 1] is None));
        }
    }
}

/// Reads the entries of a header as written: for each, the value of its
/// `rel` parameter, if it has one.
pub fn written_relations(header: &str) -> (r: Vec<Option<Vec<char>>>)
    ensures
        values(r@) == written(header@),
{
    let s = chars_of(header);
    let mut entries: Vec<Option<Vec<char>>> = Vec::new();
    let ghost mut done: Seq<Seq<char>> = Seq::empty();
    let mut from: usize = 0;
    assert(values(entries@) =~= relations(done));
    assert(done + segments(s@, 0) =~= segments(s@, 0));
    while from < s.len()
        invariant
            s@ == header@,
            from <= s.len(),
            segments(s@, 0) == done + segments(s@, from as int),
            values(entries@) == relations(done),
        decreases s.len() - from,
    {
        let end = segment_end(&s, from);
        let g = copy_range(&s, from, end);
        let next = if end < s.len() {
            end + 1
        } else {
            end
        };
        proof {
            let rest = segments(s@, next as int);
            assert(segments(s@, from as int) =~= seq![g@] + rest);
            assert(done + (seq![g@] + rest) =~= done.push(g@) + rest);
            assert(done.push(g@).drop_last() =~= done);
            assert(relations(done.push(g@)) == with_segment(relations(done), g@));
        }
        add_segment(&mut entries, &g);
        proof {
            done = done.push(g@);
        }
        from = next;
    }
    assert(done + segments(s@, from as int) =~= done);
    entries
}

/// A character that ends a name: a blank or a double quote.
pub open spec fn edge(c: char) -> bool {
    blank(c) || c == '"'
}

/// `name` stands in `v` at `a` as a whole word.
pub open spec fn word_at(v: Seq<char>, name: Seq<char>, a: int) -> bool {
    &&& 0 <= a
    &&& a + name.len() <= v.len()
    &&& v.subrange(a, a + name.len()) == name
    &&& a == 0 || edge(v[a - 1])
    &&& a + name.len() == v.len() || edge(v[a + name.len()])
}

/// One of the words of `v` is `name`, letter by letter.
pub open spec fn has_word(v: Seq<char>, name: Seq<char>) -> bool {
    exists|a: int| word_at(v, name, a)
}

fn is_edge(c: char) -> (r: bool)
    ensures
        r == edge(c),
{
    is_blank(c) || c == '"'
}

/// Whether the characters of `v` from `a` on are those of `name`.
fn matches_at(v: &Vec<char>, name: &Vec<char>, a: usize) -> (r: bool)
    requires
        a + name.len() <= v.len(),
    ensures
        r == (v@.subrange(a as int, a + name.len()) == name@),
{
    let mut k: usize = 0;
    while k < name.len()
        invariant
            k <= name.len(),
            a + name.len() <= v.len(),
            forall|j: int| 0 <= j < k ==> v@[a + j] == name@[j],
        decreases name.len() - k,
    {
        if v[a + k] != name[k] {
            assert(v@.subrange(a as int, a + name.len())[k as int] != name@[k as int]);
            return false;
        }
        k = k + 1;
    }
    assert(v@.subrange(a as int, a + name.len()) =~= name@);
    true
}

/// Whether one of the words of `v` is `name`.
pub fn holds_word(v: &Vec<char>, name: &Vec<char>) -> (r: bool)
    ensures
        r == has_word(v@, name@),
{
    if name.len() > v.len() {
        return false;
    }
    let last = v.len() - name.len();
    let mut a: usize = 0;
    loop
        invariant
            last == v.len() - name.len(),
            a <= last,
            forall|k: int| 0 <= k < a ==> !word_at(v@, name@, k),
        decreases last - a,
    {
        let before = a == 0 || is_edge(v[a - 1]);
        let after = a == last || is_edge(v[a + name.len()]);
        if before && after && matches_at(v, name, a) {
            assert(word_at(v@, name@, a as int));
            return true;
        }
        if a == last {
            assert forall|k: int| !word_at(v@, name@, k) by {
                if word_at(v@, name@, k) {
                    assert(k <= last);
                }
            }
            return false;
        }
        a = a + 1;
    }
}

/// A character that neither opens a quotation nor ends a segment.
pub open spec fn plain(c: char) -> bool {
    c != '"' && c != ';' && c != ','
}

/// The text of an entry in its usual form: `<url>; rel="names"`.
pub open spec fn usual_entry(url: Seq<char>, names: Seq<char>) -> Seq<char> {
    seq!['<'] + url + seq!['>', ';', ' ', 'r', 'e', 'l', '=', '"'] + names + seq!['"']
}

/// A stretch without double quotes, and outside quotes without `;` and `,`,
/// is run through.
proof fn run_through(s: Seq<char>, i: int, j: int, quoted: bool)
    requires
        0 <= i <= j <= s.len(),
        forall|k: int| i <= k < j ==> s[k] != '"' && (quoted || plain(#[trigger] s[k])),
    ensures
        run(s, i, quoted) == (j - i) + run(s, j, quoted),
    decreases j - i,
{
    if i < j {
        run_through(s, i + 1, j, quoted);
        assert(s[i] != '"' && (quoted || plain(s[i])));
    }
}

/// A run ends within the text.
proof fn run_ends_within(s: Seq<char>, i: int, quoted: bool)
    requires
        0 <= i <= s.len(),
    ensures
        i + run(s, i, quoted) <= s.len(),
    decreases s.len() - i,
{
    if i < s.len() {
        run_ends_within(s, i + 1, quoted != (s[i] == '"'));
    }
}

/// A run in the back part of a text is the run in that part alone.
proof fn run_in_back(front: Seq<char>, back: Seq<char>, i: int, quoted: bool)
    requires
        0 <= i,
    ensures
        run(front + back, front.len() + i, quoted) == run(back, i, quoted),
    decreases back.len() - i,
{
    if i < back.len() {
        assert((front + back)[front.len() + i] == back[i]);
        run_in_back(front, back, i + 1, quoted != (back[i] == '"'));
    }
}

/// The segments of the back part of a text are those of that part alone.
proof fn segments_in_back(front: Seq<char>, back: Seq<char>, i: int)
    requires
        0 <= i,
    ensures
        segments(front + back, front.len() + i) == segments(back, i),
    decreases back.len() - i,
{
    if i < back.len() {
        let s = front + back;
        run_in_back(front, back, i, false);
        run_ends_within(back, i, false);
        let end = i + run(back, i, false);
        assert(s.subrange(front.len() + i, front.len() + end) =~= back.subrange(i, end));
        if end < back.len() {
            segments_in_back(front, back, end + 1);
        }
    }
}

/// Segments that begin with a target describe their entries by
/// themselves, whatever stood before them.
proof fn relations_after_target(before: Seq<Seq<char>>, list: Seq<Seq<char>>)
    requires
        list.len() > 0,
        is_target(list[0]),
    ensures
        relations(before + list) == relations(before) + relations(list),
        relations(list).len() > 0,
    decreases list.len(),
{
    let front = list.drop_last();
    let g = list.last();
    assert((before + list).drop_last() =~= before + front);
    assert((before + list).last() == g);
    if front.len() == 0 {
        assert(before + front =~= before);
        assert(relations(front) =~= Seq::<Option<Seq<char>>>::empty());
        assert(relations(before + list) =~= relations(before) + relations(list));
    } else {
        assert(front[0] == list[0]);
        relations_after_target(before, front);
        let x = relations(before);
        let y = relations(front);
        assert((x + y).last() == y.last());
        if is_target(g) {
            assert((x + y).push(None) =~= x + y.push(None));
        } else if is_rel(g) && y.last() is None {
            assert((x + y).update((x + y).len() - 1, Some(rel_value(g))) =~= x + y.update(
                y.len() - 1,
                Some(rel_value(g)),
            ));
        }
    }
}

/// The two segments of an entry in its usual form that stands at `at`,
/// behind blanks from `from` on, and where the entry ends.
proof fn usual_entry_is_two_segments(
    s: Seq<char>,
    from: int,
    at: int,
    url: Seq<char>,
    names: Seq<char>,
)
    requires
        0 <= from <= at,
        at + url.len() + names.len() + 10 <= s.len(),
        blanks(s, from, at),
        s.subrange(at, at + url.len() + names.len() + 10) == usual_entry(url, names),
        forall|k: int| 0 <= k < url.len() ==> plain(#[trigger] url[k]),
        forall|k: int| 0 <= k < names.len() ==> (#[trigger] names[k]) != '"',
    ensures
        ({
            let end = at + url.len() + names.len() + 10;
            let first = s.subrange(from, at + url.len() + 2);
            let second = s.subrange(at + url.len() + 3, end);
            &&& from + run(s, from, false) == at + url.len() + 2
            &&& at + url.len() + 3 + run(s, at + url.len() + 3, false) == end + run(s, end, false)
            &&& is_target(first)
            &&& !is_target(second)
            &&& is_rel(second)
            &&& rel_value(second) == seq!['"'] + names + seq!['"']
        }),
{
    let e = usual_entry(url, names);
    let u = url.len() as int;
    let n = names.len() as int;
    let end = at + u + n + 10;
    let mid = seq!['>', ';', ' ', 'r', 'e', 'l', '=', '"'];
    assert forall|k: int| 0 <= k < u + n + 10 implies s[at + k] == e[k] by {
        assert(s.subrange(at, end)[k] == s[at + k]);
    }
    assert(e[0] == '<');
    assert forall|k: int| 1 <= k <= u implies e[k] == url[k - 1] by {}
    assert(e[u + 1] == mid[0] && e[u + 2] == mid[1] && e[u + 3] == mid[2] && e[u + 4] == mid[3]);
    assert(e[u + 5] == mid[4] && e[u + 6] == mid[5] && e[u + 7] == mid[6] && e[u + 8] == mid[7]);
    assert forall|k: int| u + 9 <= k < u + 9 + n implies e[k] == names[k - u - 9] by {}
    assert(e[u + 9 + n] == '"');
    // The first segment: the blanks and the target.
    assert forall|k: int| from <= k < at + u + 2 implies s[k] != '"' && plain(#[trigger] s[k]) by {
        if k < at {
            assert(blank(s[k]));
        } else {
            assert(s[k] == e[k - at]);
            if 1 <= k - at <= u {
                assert(plain(url[k - at - 1]));
            }
        }
    }
    run_through(s, from, at + u + 2, false);
    assert(s[at + u + 2] == e[u + 2]);
    assert(run(s, at + u + 2, false) == 0);
    let first = s.subrange(from, at + u + 2);
    assert(first[at - from] == s[at] && s[at] == e[0]);
    assert(blanks(first, 0, at - from)) by {
        assert forall|k: int| 0 <= k < at - from implies blank(#[trigger] first[k]) by {
            assert(blank(s[from + k]));
        }
    }
    assert(is_target(first));
    // The second segment: the parameter.
    assert forall|k: int| at + u + 3 <= k < at + u + 8 implies s[k] != '"' && plain(
        #[trigger] s[k],
    ) by {
        assert(s[k] == e[k - at]);
    }
    run_through(s, at + u + 3, at + u + 8, false);
    assert(s[at + u + 8] == e[u + 8]);
    assert(run(s, at + u + 8, false) == 1 + run(s, at + u + 9, true));
    assert forall|k: int| at + u + 9 <= k < at + u + 9 + n implies s[k] != '"' by {
        assert(s[k] == e[k - at]);
        assert(names[k - at - u - 9] != '"');
    }
    run_through(s, at + u + 9, at + u + 9 + n, true);
    assert(s[at + u + 9 + n] == e[u + 9 + n]);
    assert(run(s, at + u + 9 + n, true) == 1 + run(s, end, false));
    let second = s.subrange(at + u + 3, end);
    assert forall|k: int| 0 <= k < n + 7 implies second[k] == e[u + 3 + k] by {
        assert(second[k] == s[at + u + 3 + k]);
    }
    assert(second[0] == ' ' && second[1] == 'r' && second[2] == 'e' && second[3] == 'l');
    assert(second[4] == '=');
    assert forall|i: int| !(#[trigger] blanks(second, 0, i) && 0 <= i < second.len() && second[i]
        == '<') by {
        if blanks(second, 0, i) && 0 <= i < second.len() && second[i] == '<' {
            if i >= 2 {
                assert(blank(second[1]));
            }
        }
    }
    reveal_with_fuel(name_len, 6);
    assert(name_len(second, 0) == 4);
    let name = second.subrange(0, 4);
    assert(blanks(name, 0, 1) && spells_rel(name, 1) && blanks(name, 4, 4));
    assert(is_rel_name(name));
    assert(rel_value(second) =~= seq!['"'] + names + seq!['"']);
}

/// The text of a header in its usual form: entries in their usual form,
/// with a comma and a space between them.
pub open spec fn usual_header(list: Seq<(Seq<char>, Seq<char>)>) -> Seq<char>
    decreases list.len(),
{
    if list.len() == 0 {
        Seq::empty()
    } else if list.len() == 1 {
        usual_entry(list[0].0, list[0].1)
    } else {
        usual_entry(list[0].0, list[0].1) + seq![',', ' '] + usual_header(list.drop_first())
    }
}

/// The names of each entry of a list, between quotes.
pub open spec fn quoted_names(list: Seq<(Seq<char>, Seq<char>)>) -> Seq<Option<Seq<char>>> {
    Seq::new(list.len(), |i: int| Some(seq!['"'] + list[i].1 + seq!['"']))
}

/// A header in its usual form, behind blanks, is read as its entries.
proof fn usual_header_behind_blanks(lead: Seq<char>, list: Seq<(Seq<char>, Seq<char>)>)
    requires
        list.len() > 0,
        blanks(lead, 0, lead.len() as int),
        forall|i: int, k: int|
            0 <= i < list.len() && 0 <= k < list[i].0.len() ==> plain(#[trigger] list[i].0[k]),
        forall|i: int, k: int|
            0 <= i < list.len() && 0 <= k < list[i].1.len() ==> (#[trigger] list[i].1[k]) != '"',
    ensures
        relations(segments(lead + usual_header(list), 0)) == quoted_names(list),
        segments(lead + usual_header(list), 0).len() > 0,
        is_target(segments(lead + usual_header(list), 0)[0]),
    decreases list.len(),
{
    let url = list[0].0;
    let names = list[0].1;
    let e = usual_entry(url, names);
    let s = lead + usual_header(list);
    let at = lead.len() as int;
    let u = url.len() as int;
    let n = names.len() as int;
    let end = at + u + n + 10;
    assert(e.len() == u + n + 10);
    assert forall|k: int| 0 <= k < url.len() implies plain(#[trigger] url[k]) by {
        assert(plain(list[0].0[k]));
    }
    assert forall|k: int| 0 <= k < names.len() implies (#[trigger] names[k]) != '"' by {
        assert(list[0].1[k] != '"');
    }
    assert(s.subrange(at, end) =~= e);
    assert(blanks(s, 0, at)) by {
        assert forall|k: int| 0 <= k < at implies blank(#[trigger] s[k]) by {
            assert(s[k] == lead[k]);
        }
    }
    usual_entry_is_two_segments(s, 0, at, url, names);
    let first = s.subrange(0, at + u + 2);
    let second = s.subrange(at + u + 3, end);
    let value = seq!['"'] + names + seq!['"'];
    let pair = seq![first, second];
    assert(pair.drop_last() =~= seq![first]);
    assert(seq![first].drop_last() =~= Seq::<Seq<char>>::empty());
    reveal_with_fuel(relations, 3);
    assert(relations(seq![first]) =~= seq![None]);
    assert(relations(pair) =~= seq![Some(value)]);
    if list.len() == 1 {
        assert(s.len() == end);
        assert(run(s, end, false) == 0);
        assert(segments(s, at + u + 3) =~= seq![second]);
        assert(segments(s, 0) =~= pair);
        assert(relations(pair) =~= quoted_names(list));
    } else {
        let rest = list.drop_first();
        let tail = seq![' '] + usual_header(rest);
        let head = lead + e + seq![','];
        assert(s =~= head + tail);
        assert(s[end] == ',');
        assert(run(s, end, false) == 0);
        assert forall|i: int, k: int|
            0 <= i < rest.len() && 0 <= k < rest[i].0.len() implies plain(
            #[trigger] rest[i].0[k],
        ) by {
            assert(plain(list[i + 1].0[k]));
        }
        assert forall|i: int, k: int|
            0 <= i < rest.len() && 0 <= k < rest[i].1.len() implies (#[trigger] rest[i].1[k])
            != '"' by {
            assert(list[i + 1].1[k] != '"');
        }
        usual_header_behind_blanks(seq![' '], rest);
        segments_in_back(head, tail, 0);
        let later = segments(tail, 0);
        assert(segments(s, end + 1) == later);
        assert(segments(s, at + u + 3) =~= seq![second] + later);
        assert(segments(s, 0) =~= pair + later);
        relations_after_target(pair, later);
        assert(seq![Some(value)] + quoted_names(rest) =~= quoted_names(list));
    }
}

/// A header in its usual form is read as its entries, each with its names
/// as they are written, quotes included, whatever their case.
pub proof fn usual_header_is_read_as_written(list: Seq<(Seq<char>, Seq<char>)>)
    requires
        forall|i: int, k: int|
            0 <= i < list.len() && 0 <= k < list[i].0.len() ==> plain(#[trigger] list[i].0[k]),
        forall|i: int, k: int|
            0 <= i < list.len() && 0 <= k < list[i].1.len() ==> (#[trigger] list[i].1[k]) != '"',
    ensures
        written(usual_header(list)) == quoted_names(list),
{
    if list.len() == 0 {
        assert(written(usual_header(list)) =~= quoted_names(list));
    } else {
        assert(Seq::<char>::empty() + usual_header(list) =~= usual_header(list));
        usual_header_behind_blanks(Seq::empty(), list);
    }
}

/// In names written between quotes without blanks, a word is the whole
/// text: the names hold `name` exactly where they are `name`, letter by
/// letter.
pub proof fn single_name_is_matched_whole(names: Seq<char>, name: Seq<char>)
    requires
        name.len() > 0,
        forall|k: int| 0 <= k < names.len() ==> !edge(#[trigger] names[k]),
        forall|k: int| 0 <= k < name.len() ==> !edge(#[trigger] name[k]),
    ensures
        has_word(seq!['"'] + names + seq!['"'], name) <==> names == name,
{
    let v = seq!['"'] + names + seq!['"'];
    let n = names.len() as int;
    assert(v.len() == n + 2);
    assert(v[0] == '"' && v[n + 1] == '"');
    assert forall|k: int| 1 <= k <= n implies v[k] == names[k - 1] by {}
    if names == name {
        assert(v.subrange(1, 1 + name.len() as int) =~= name);
        assert(word_at(v, name, 1));
    }
    if has_word(v, name) {
        let a = choose|a: int| word_at(v, name, a);
        let m = name.len() as int;
        let w = v.subrange(a, a + m);
        assert(w == name);
        assert(w[0] == name[0]);
        assert(w[m - 1] == name[m - 1]);
        // The word neither starts nor ends on a quote.
        assert(a != 0);
        assert(a + m - 1 != n + 1);
        // Before and after it stand the quotes.
        if a > 1 {
            assert(v[a - 1] == names[a - 2]);
        }
        if a + m < n + 1 {
            assert(v[a + m] == names[a + m - 1]);
        }
        assert(a == 1 && m == n);
        assert(names =~= w);
    }
}

} // verus!
