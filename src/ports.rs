//! Finding the processes that hold a port, from the output of the
//! platform's connection-listing tool, and reporting how many were killed.
use vstd::prelude::*;

use crate::platform::Platform;
use crate::report::{is_success_with, CommandResult};
use crate::text::{
    chars_of, decimal, is_space, is_space_char, parse_u32, parse_u32_range, parsed_u32,
    push_decimal, trim_from, trimmed,
};

verus! {

/// The pieces of `s` between newline characters, in order; there is always
/// at least one, and the last is empty when `s` ends with a newline.
pub open spec fn pieces(s: Seq<char>) -> Seq<Seq<char>>
    decreases s.len(),
{
    if s.len() == 0 {
        seq![Seq::<char>::empty()]
    } else {
        let p = pieces(s.drop_last());
        if s.last() == '\n' {
            p.push(Seq::<char>::empty())
        } else {
            p.update(p.len() - 1, p.last().push(s.last()))
        }
    }
}

/// A line without the carriage return that ends it, if any.
pub open spec fn strip_cr(l: Seq<char>) -> Seq<char> {
    if l.len() > 0 && l.last() == '\r' {
        l.drop_last()
    } else {
        l
    }
}

/// The white-space separated words of `s`, in order.
pub open spec fn words(s: Seq<char>) -> Seq<Seq<char>>
    decreases s.len(),
{
    if s.len() == 0 {
        Seq::<Seq<char>>::empty()
    } else {
        let w = words(s.drop_last());
        let c = s.last();
        if is_space(c) {
            w
        } else if s.len() >= 2 && !is_space(s[s.len() - 2]) {
            w.update(w.len() - 1, w.last().push(c))
        } else {
            w.push(seq![c])
        }
    }
}

/// `t` is a suffix of `s`.
pub open spec fn ends_with(s: Seq<char>, t: Seq<char>) -> bool {
    t.len() <= s.len() && s.subrange(s.len() - t.len(), s.len() as int) == t
}

/// The process that a line of the listing names as holding `port`. On
/// Windows the tool lists connections as protocol, local address, foreign
/// address, state and process: a line names its process (the last word)
/// only when its local address is on `port` exactly and its state is
/// `LISTENING`. Elsewhere the tool lists only the processes listening on
/// the port, one identifier per line.
pub open spec fn line_holder(l: Seq<char>, port: u16, p: Platform) -> Option<u32> {
    if p is Windows {
        let w = words(l);
        if w.len() >= 5 && ends_with(w[1], ":"@ + decimal(port as nat)) && w[3] == "LISTENING"@ {
            parsed_u32(w.last())
        } else {
            None
        }
    } else {
        parsed_u32(trimmed(l))
    }
}

/// The processes that the lines in `ps` name, in order.
pub open spec fn holders_in(ps: Seq<Seq<char>>, port: u16, p: Platform) -> Seq<u32>
    decreases ps.len(),
{
    if ps.len() == 0 {
        Seq::<u32>::empty()
    } else {
        holders_in(ps.drop_last(), port, p) + match line_holder(strip_cr(ps.last()), port, p) {
            Some(x) => seq![x],
            None => Seq::<u32>::empty(),
        }
    }
}

/// A copy of `v[a..b]`.
fn slice_chars(v: &Vec<char>, a: usize, b: usize) -> (r: Vec<char>)
    requires
        a <= b <= v.len(),
    ensures
        r@ == v@.subrange(a as int, b as int),
{
    let mut r: Vec<char> = Vec::new();
    let mut k: usize = a;
    while k < b
        invariant
            a <= k <= b <= v.len(),
            r@ == v@.subrange(a as int, k as int),
        decreases b - k,
    {
        r.push(v[k]);
        k = k + 1;
        assert(r@ =~= v@.subrange(a as int, k as int));
    }
    r
}

/// The views of a sequence of character vectors.
pub open spec fn views(v: Seq<Vec<char>>) -> Seq<Seq<char>> {
    v.map_values(|w: Vec<char>| w@)
}

/// The white-space separated words of `l`.
fn words_of(l: &Vec<char>) -> (r: Vec<Vec<char>>)
    ensures
        views(r@) == words(l@),
{
    let mut done: Vec<Vec<char>> = Vec::new();
    let mut cur: Vec<char> = Vec::new();
    let mut in_word = false;
    let mut i: usize = 0;
    while i < l.len()
        invariant
            i <= l.len(),
            in_word == (i > 0 && !is_space(l@[i - 1])),
            in_word ==> words(l@.subrange(0, i as int)) == views(done@).push(cur@),
            !in_word ==> words(l@.subrange(0, i as int)) == views(done@),
        decreases l.len() - i,
    {
        let c = l[i];
        let ghost before = l@.subrange(0, i as int);
        let ghost after = l@.subrange(0, i + 1);
        assert(after.drop_last() =~= before);
        assert(after.last() == c);
        if is_space_char(c) {
            if in_word {
                let ghost d = done@;
                done.push(cur);
                assert(views(done@) =~= views(d).push(cur@));
                cur = Vec::new();
            }
            in_word = false;
        } else {
            if in_word {
                assert(after[after.len() - 2] == l@[i - 1]);
                let ghost old_cur = cur@;
                cur.push(c);
                assert(views(done@).push(old_cur).update(views(done@).len() as int, old_cur.push(c))
                    =~= views(done@).push(cur@));
            } else {
                assert(i >= 1 ==> after[after.len() - 2] == l@[i - 1]);
                cur = Vec::new();
                cur.push(c);
                assert(cur@ =~= seq![c]);
            }
            in_word = true;
        }
        i = i + 1;
    }
    assert(l@.subrange(0, l.len() as int) =~= l@);
    if in_word {
        let ghost d = done@;
        done.push(cur);
        assert(views(done@) =~= views(d).push(cur@));
    }
    done
}

/// Whether `a` and `b` hold the same characters.
fn same_chars(a: &Vec<char>, b: &Vec<char>) -> (r: bool)
    ensures
        r == (a@ == b@),
{
    if a.len() != b.len() {
        return false;
    }
    let mut i: usize = 0;
    while i < a.len()
        invariant
            a.len() == b.len(),
            i <= a.len(),
            forall|k: int| 0 <= k < i ==> a@[k] == b@[k],
        decreases a.len() - i,
    {
        if a[i] != b[i] {
            return false;
        }
        i = i + 1;
    }
    assert(a@ =~= b@);
    true
}

/// Whether `t` is a suffix of `s`.
fn ends_with_chars(s: &Vec<char>, t: &Vec<char>) -> (r: bool)
    ensures
        r == ends_with(s@, t@),
{
    if t.len() > s.len() {
        return false;
    }
    let tail = slice_chars(s, s.len() - t.len(), s.len());
    same_chars(&tail, t)
}

/// The process that one line of the listing names, if any; `line` may end
/// with a carriage return.
pub fn holder_of_line(line: &Vec<char>, port: u16, platform: Platform) -> (r: Option<u32>)
    ensures
        r == line_holder(strip_cr(line@), port, platform),
{
    let n = line.len();
    let end: usize = if n > 0 && line[n - 1] == '\r' {
        n - 1
    } else {
        n
    };
    let l = slice_chars(line, 0, end);
    assert(l@ =~= strip_cr(line@));
    match platform {
        Platform::Windows => {
            let w = words_of(&l);
            if w.len() < 5 {
                return None;
            }
            let mut suffix = String::from_str(":");
            push_decimal(&mut suffix, port as u128);
            let suffix = chars_of(suffix.as_str());
            let state = chars_of("LISTENING");
            assert(views(w@)[1] == w@[1]@ && views(w@)[3] == w@[3]@);
            if ends_with_chars(&w[1], &suffix) && same_chars(&w[3], &state) {
                let last = &w[w.len() - 1];
                assert(views(w@).last() == last@);
                assert(last@.subrange(0, last.len() as int) =~= last@);
                parse_u32_range(last, 0, last.len())
            } else {
                None
            }
        },
        _ => {
            assert(l@.subrange(0, l.len() as int) =~= l@);
            let t = trim_from(&l, 0);
            parse_u32(t.as_str())
        },
    }
}

/// The processes that the listing tool's output names as holding `port`,
/// in the order of its lines: on Windows the owners of connections
/// listening on exactly that port, elsewhere one identifier per line.
/// Lines that name none are skipped.
pub fn port_holders(output: &str, port: u16, platform: Platform) -> (r: Vec<u32>)
    ensures
        r@ == holders_in(pieces(output@), port, platform),
{
    let v = chars_of(output);
    let mut out: Vec<u32> = Vec::new();
    let mut cur: Vec<char> = Vec::new();
    let mut i: usize = 0;
    while i < v.len()
        invariant
            i <= v.len(),
            v@ == output@,
            pieces(v@.subrange(0, i as int)).len() > 0,
            cur@ == pieces(v@.subrange(0, i as int)).last(),
            out@ == holders_in(pieces(v@.subrange(0, i as int)).drop_last(), port, platform),
        decreases v.len() - i,
    {
        let c = v[i];
        let ghost before = v@.subrange(0, i as int);
        let ghost after = v@.subrange(0, i + 1);
        assert(after.drop_last() =~= before);
        if c == '\n' {
            let h = holder_of_line(&cur, port, platform);
            match h {
                Some(x) => out.push(x),
                None => {},
            }
            proof {
                let p = pieces(before);
                assert(pieces(after) == p.push(Seq::<char>::empty()));
                assert(pieces(after).drop_last() =~= p);
                assert(p == p.drop_last().push(p.last()));
                assert(p.drop_last().push(p.last()).drop_last() =~= p.drop_last());
                assert(out@ =~= holders_in(p, port, platform));
            }
            cur = Vec::new();
        } else {
            cur.push(c);
            proof {
                let p = pieces(before);
                assert(pieces(after) == p.update(p.len() - 1, p.last().push(c)));
                assert(pieces(after).drop_last() =~= p.drop_last());
            }
        }
        i = i + 1;
    }
    let h = holder_of_line(&cur, port, platform);
    match h {
        Some(x) => out.push(x),
        None => {},
    }
    proof {
        assert(v@.subrange(0, v.len() as int) =~= v@);
        let p = pieces(v@);
        assert(p.drop_last().push(p.last()) =~= p);
        assert(p.drop_last().push(p.last()).drop_last() =~= p.drop_last());
    }
    out
}

/// The message after killing `killed` processes that held `port`.
pub open spec fn port_freed_text(killed: nat, port: nat) -> Seq<char> {
    "已成功终止 "@ + decimal(killed) + " 个占用端口 "@ + decimal(port) + " 的进程"@
}

/// The message when nothing held `port`.
pub open spec fn port_free_text(port: nat) -> Seq<char> {
    "端口 "@ + decimal(port) + " 未被占用"@
}

/// The message when the port could not be checked.
pub open spec fn port_unchecked_text() -> Seq<char> {
    "无法检查或清理端口"@
}

/// The result of freeing `port`, once `killed` of its holders were killed.
pub fn port_report(killed: u32, port: u16) -> (r: CommandResult)
    ensures
        is_success_with(
            r,
            if killed > 0 {
                port_freed_text(killed as nat, port as nat)
            } else {
                port_free_text(port as nat)
            },
        ),
{
    let mut s: String;
    if killed > 0 {
        s = String::from_str("已成功终止 ");
        push_decimal(&mut s, killed as u128);
        s.append(" 个占用端口 ");
        push_decimal(&mut s, port as u128);
        s.append(" 的进程");
    } else {
        s = String::from_str("端口 ");
        push_decimal(&mut s, port as u128);
        s.append(" 未被占用");
    }
    CommandResult::succeeded(s)
}

/// The error when the port's holders could not be listed.
pub fn port_unchecked_error() -> (r: String)
    ensures
        r@ == port_unchecked_text(),
{
    String::from_str("无法检查或清理端口")
}

} // verus!
