//! The configuration of the host, as its headers reveal it to the
//! preprocessor, and the lines by which the build hands it on.
//!
//! The preprocessor's output has a line `RUST_CONF_<NAME>=<value>` for each
//! setting. Three of them name the host's build and version; of the others,
//! a known operating system sets the operating system, and a known feature
//! whose value is not `0` counts as enabled.

use crate::build::text::{
    begins_with, chars, find, find_in, holds, join, joined, lemma_texts_push, lines,
    lowercase, push_all, same, split_lines, starts_with, texts, to_ascii_lowercase, trim, trimmed,
};
use vstd::prelude::*;

verus! {

/// The features that the build knows: settings of the host that change the
/// layout of its structures or the modules it has.
pub open spec fn conf_features() -> Seq<Seq<char>> {
    seq![
        "compat"@,
        "debug"@,
        "have_epollrdhup"@,
        "have_file_aio"@,
        "have_kqueue"@,
        "http_cache"@,
        "http_dav"@,
        "http_gzip"@,
        "http_realip"@,
        "http_ssi"@,
        "http_ssl"@,
        "http_upstream_zone"@,
        "http_v2"@,
        "http_v3"@,
        "http_x_forwarded_for"@,
        "pcre"@,
        "pcre2"@,
        "quic"@,
        "ssl"@,
        "stream_ssl"@,
        "stream_upstream_zone"@,
        "threads"@,
    ]
}

/// The operating systems that the build knows.
pub open spec fn conf_os() -> Seq<Seq<char>> {
    seq![
        "darwin"@,
        "freebsd"@,
        "gnu_hurd"@,
        "hpux"@,
        "linux"@,
        "solaris"@,
        "tru64"@,
        "win32"@,
    ]
}

/// Executable form of [`conf_features`].
pub fn ngx_conf_features() -> (v: Vec<Vec<char>>)
    ensures
        texts(v@) == conf_features(),
{
    let v = vec![
        chars("compat"),
        chars("debug"),
        chars("have_epollrdhup"),
        chars("have_file_aio"),
        chars("have_kqueue"),
        chars("http_cache"),
        chars("http_dav"),
        chars("http_gzip"),
        chars("http_realip"),
        chars("http_ssi"),
        chars("http_ssl"),
        chars("http_upstream_zone"),
        chars("http_v2"),
        chars("http_v3"),
        chars("http_x_forwarded_for"),
        chars("pcre"),
        chars("pcre2"),
        chars("quic"),
        chars("ssl"),
        chars("stream_ssl"),
        chars("stream_upstream_zone"),
        chars("threads"),
    ];
    assert(texts(v@) =~= conf_features());
    v
}

/// Executable form of [`conf_os`].
pub fn ngx_conf_os() -> (v: Vec<Vec<char>>)
    ensures
        texts(v@) == conf_os(),
{
    let v = vec![
        chars("darwin"),
        chars("freebsd"),
        chars("gnu_hurd"),
        chars("hpux"),
        chars("linux"),
        chars("solaris"),
        chars("tru64"),
        chars("win32"),
    ];
    assert(texts(v@) =~= conf_os());
    v
}

/// What stands for each match when the regular expression `pattern` is
/// matched against `text` again and again, each match beginning where the
/// one before ended: the text of the first group of each match, or nothing
/// for a match in which the group took no part. There is no result where
/// `pattern` is not a regular expression.
pub uninterp spec fn regex_first_groups(pattern: Seq<char>, text: Seq<char>) -> Option<
    Seq<Option<Seq<char>>>,
>;

/// The groups `g`, each by its text.
pub open spec fn groups_view(g: Option<Vec<Option<Vec<char>>>>) -> Option<Seq<Option<Seq<char>>>> {
    match g {
        Some(v) => Some(
            Seq::new(
                v@.len(),
                |i: int|
                    match v@[i] {
                        Some(t) => Some(t@),
                        None => None,
                    },
            ),
        ),
        None => None,
    }
}

/// `regex::Regex::new` and `Regex::captures_iter`: compiles `pattern` and
/// hands out the first group of each of its successive matches in `text`.
#[verifier::external_body]
fn regex_captures(pattern: &[char], text: &[char]) -> (r: Option<Vec<Option<Vec<char>>>>)
    ensures
        groups_view(r) == regex_first_groups(pattern@, text@),
{
    let p: String = pattern.iter().collect();
    let t: String = text.iter().collect();
    let re = regex::Regex::new(&p).ok()?;
    Some(re.captures_iter(&t).map(|c| c.get(1).map(|m| m.as_str().chars().collect())).collect())
}

/// The texts of the groups one after the other; nothing where a group has
/// no text.
pub open spec fn concat_groups(groups: Seq<Option<Seq<char>>>) -> Option<Seq<char>>
    decreases groups.len(),
{
    if groups.len() == 0 {
        Some(Seq::empty())
    } else {
        match (concat_groups(groups.drop_last()), groups.last()) {
            (Some(head), Some(t)) => Some(head + t),
            _ => None,
        }
    }
}

/// Executable form of [`concat_groups`].
pub fn merge_groups(groups: &Vec<Option<Vec<char>>>) -> (r: Option<Vec<char>>)
    ensures
        r.is_some() == concat_groups(groups_view(Some(*groups))->0).is_some(),
        r matches Some(v) ==> concat_groups(groups_view(Some(*groups))->0) == Some(v@),
{
    let ghost g = groups_view(Some(*groups))->0;
    let mut v: Vec<char> = Vec::new();
    let mut i: usize = 0;
    while i < groups.len()
        invariant
            i <= groups@.len(),
            g == groups_view(Some(*groups))->0,
            concat_groups(g.take(i as int)) == Some(v@),
        decreases groups@.len() - i,
    {
        proof {
            let t = g.take(i + 1);
            assert(t.drop_last() == g.take(i as int));
            assert(t.last() == g[i as int]);
        }
        match &groups[i] {
            Some(t) => {
                push_all(&mut v, t.as_slice());
            },
            None => {
                proof {
                    lemma_concat_none(g, i + 1);
                }
                return None;
            },
        }
        i = i + 1;
    }
    assert(g.take(i as int) == g);
    Some(v)
}

/// Once the groups up to some place have no text together, neither have
/// all groups.
pub proof fn lemma_concat_none(g: Seq<Option<Seq<char>>>, k: int)
    requires
        0 <= k <= g.len(),
        concat_groups(g.take(k)) is None,
    ensures
        concat_groups(g) is None,
    decreases g.len() - k,
{
    if k < g.len() {
        let t = g.take(k + 1);
        assert(t.drop_last() == g.take(k));
        lemma_concat_none(g, k + 1);
    } else {
        assert(g.take(k) == g);
    }
}

/// The regular expression that finds the parts of a C string constant:
/// a part stands between two quotation marks, of which the second has no
/// backslash before it, and white space may follow.
pub open spec fn unquote_pattern() -> Seq<char> {
    seq!['"', '(', '.', '*', '?', '[', '^', '\\', '\\', ']', ')', '"', '\\', 's', '*']
}

/// The C string constant `data` without its quotation marks, its parts
/// merged into one text.
pub open spec fn unquoted(data: Seq<char>) -> Option<Seq<char>> {
    match regex_first_groups(unquote_pattern(), data) {
        Some(groups) => concat_groups(groups),
        None => None,
    }
}

/// Executable form of [`unquoted`].
pub fn unquote(data: &[char]) -> (r: Option<Vec<char>>)
    ensures
        r.is_some() == unquoted(data@).is_some(),
        r matches Some(v) ==> unquoted(data@) == Some(v@),
{
    let pattern = vec![
        '"',
        '(',
        '.',
        '*',
        '?',
        '[',
        '^',
        '\\',
        '\\',
        ']',
        ')',
        '"',
        '\\',
        's',
        '*',
    ];
    assert(pattern@ =~= unquote_pattern());
    match regex_captures(pattern.as_slice(), data) {
        Some(groups) => merge_groups(&groups),
        None => None,
    }
}

/// What every line of a setting begins with: `RUST_CONF_`.
pub open spec fn conf_prefix() -> Seq<char> {
    seq!['R', 'U', 'S', 'T', '_', 'C', 'O', 'N', 'F', '_']
}

/// The setting that `line` holds, as its name in lower case and its value:
/// the line, without the white space around it, begins with the prefix and
/// has an equals sign behind it; the name stands before the first equals
/// sign and the value behind it, both without the white space around them.
pub open spec fn conf_entry(line: Seq<char>) -> Option<(Seq<char>, Seq<char>)> {
    let t = trim(line);
    if !starts_with(t, conf_prefix()) {
        None
    } else {
        let rest = t.skip(10);
        match find(rest, seq!['=']) {
            Some(i) => Some((to_ascii_lowercase(trim(rest.take(i))), trim(rest.skip(i + 1)))),
            None => None,
        }
    }
}

/// Executable form of [`conf_entry`].
pub fn parse_entry(line: &[char]) -> (r: Option<(Vec<char>, Vec<char>)>)
    ensures
        r.is_some() == conf_entry(line@).is_some(),
        r matches Some(e) ==> conf_entry(line@) == Some((e.0@, e.1@)),
{
    let t = trimmed(line);
    let prefix = vec!['R', 'U', 'S', 'T', '_', 'C', 'O', 'N', 'F', '_'];
    assert(prefix@ =~= conf_prefix());
    if !begins_with(t.as_slice(), prefix.as_slice()) {
        return None;
    }
    let n = t.len();
    let rest = vstd::slice::slice_subrange(t.as_slice(), 10, n);
    assert(rest@ =~= t@.skip(10));
    let eq = vec!['='];
    assert(eq@ =~= seq!['=']);
    match find_in(rest, eq.as_slice(), 0) {
        None => None,
        Some(i) => {
            let m = rest.len();
            let name = vstd::slice::slice_subrange(rest, 0, i);
            assert(name@ =~= rest@.take(i as int));
            let value = vstd::slice::slice_subrange(rest, i + 1, m);
            assert(value@ =~= rest@.skip(i + 1));
            let name = trimmed(name);
            Some((lowercase(name.as_slice()), trimmed(value)))
        },
    }
}

/// What the build has gathered from the settings.
pub struct ConfState {
    /// The lines to hand on so far.
    pub out: Seq<Seq<char>>,
    /// The operating system.
    pub os: Seq<char>,
    /// The enabled features.
    pub features: Seq<Seq<char>>,
}

/// The state after the setting `name` with `value`. The names of the build
/// and the version give a line with the value unquoted, the version number
/// a line with the value as it is. There is no state where a value cannot
/// be unquoted.
pub open spec fn after_entry(c: ConfState, name: Seq<char>, value: Seq<char>) -> Option<
    ConfState,
> {
    if name == "nginx_build"@ {
        match unquoted(value) {
            Some(u) => Some(ConfState { out: c.out.push("cargo::metadata=build="@ + u), ..c }),
            None => None,
        }
    } else if name == "nginx_version"@ {
        match unquoted(value) {
            Some(u) => Some(ConfState { out: c.out.push("cargo::metadata=version="@ + u), ..c }),
            None => None,
        }
    } else if name == "nginx_version_number"@ {
        Some(ConfState { out: c.out.push("cargo::metadata=version_number="@ + value), ..c })
    } else if conf_os().contains(name) {
        Some(ConfState { os: name, ..c })
    } else if conf_features().contains(name) && value != "0"@ {
        Some(ConfState { features: c.features.push(name), ..c })
    } else {
        Some(c)
    }
}

/// The state after the lines `all` from line `k` on.
pub open spec fn after_lines(c: ConfState, all: Seq<Seq<char>>, k: int) -> Option<ConfState>
    decreases all.len() - k,
{
    if k < 0 || k >= all.len() {
        Some(c)
    } else {
        match conf_entry(all[k]) {
            Some((name, value)) => match after_entry(c, name, value) {
                Some(d) => after_lines(d, all, k + 1),
                None => None,
            },
            None => after_lines(c, all, k + 1),
        }
    }
}

/// The word under which the directories of the headers are handed on.
pub open spec fn directories_key() -> Seq<char> {
    seq!['i', 'n', 'c', 'l', 'u', 'd', 'e']
}

/// The lines that close the output: the directories of the headers, the known
/// features, the enabled features, the known operating systems, and the
/// operating system.
pub open spec fn closing_lines(c: ConfState, directories: Seq<char>) -> Seq<Seq<char>> {
    seq![
        "cargo::metadata="@ + directories_key() + "="@ + directories,
        "cargo::metadata=features_check=\""@ + join(conf_features(), "\",\""@) + "\""@,
        "cargo::metadata=features="@ + join(c.features, ","@),
        "cargo::metadata=os_check=\""@ + join(conf_os(), "\",\""@) + "\""@,
        "cargo::metadata=os="@ + c.os,
    ]
}

/// The lines by which the build hands on the configuration that the
/// preprocessor's output `expanded` holds, with `directories` as the list
/// of the directories of the headers.
pub open spec fn metadata(expanded: Seq<char>, directories: Seq<char>) -> Option<Seq<Seq<char>>> {
    let start = ConfState { out: Seq::empty(), os: Seq::empty(), features: Seq::empty() };
    match after_lines(start, lines(expanded), 0) {
        Some(c) => Some(c.out + closing_lines(c, directories)),
        None => None,
    }
}

/// The text `head` followed by `tail`.
fn line_of(head: &str, tail: &[char]) -> (v: Vec<char>)
    ensures
        v@ == head@ + tail@,
{
    let mut v = chars(head);
    push_all(&mut v, tail);
    v
}

/// The text `head`, the texts `list` with `sep` between them, and `tail`.
fn list_line(head: &str, list: &Vec<Vec<char>>, sep: &str, tail: &str) -> (v: Vec<char>)
    ensures
        v@ == head@ + join(texts(list@), sep@) + tail@,
{
    let mut v = chars(head);
    let s = chars(sep);
    let j = joined(list, s.as_slice());
    push_all(&mut v, j.as_slice());
    let t = chars(tail);
    push_all(&mut v, t.as_slice());
    v
}

/// The lines by which the build hands on the configuration of the host.
/// There are none where a value that is to be unquoted cannot be.
pub fn print_cargo_metadata(expanded: &[char], directories: &[char]) -> (r: Option<
    Vec<Vec<char>>,
>)
    ensures
        r.is_some() == metadata(expanded@, directories@).is_some(),
        r matches Some(v) ==> metadata(expanded@, directories@) == Some(texts(v@)),
{
    let all = split_lines(expanded);
    let features_known = ngx_conf_features();
    let os_known = ngx_conf_os();
    let build = chars("nginx_build");
    let version = chars("nginx_version");
    let number = chars("nginx_version_number");
    let zero = chars("0");
    let mut out: Vec<Vec<char>> = Vec::new();
    let mut os: Vec<char> = Vec::new();
    let mut features: Vec<Vec<char>> = Vec::new();
    let ghost start = ConfState { out: Seq::empty(), os: Seq::empty(), features: Seq::empty() };
    assert(texts(out@) =~= Seq::<Seq<char>>::empty());
    assert(texts(features@) =~= Seq::<Seq<char>>::empty());
    let mut k: usize = 0;
    while k < all.len()
        invariant
            k <= all@.len(),
            texts(all@) == lines(expanded@),
            texts(features_known@) == conf_features(),
            texts(os_known@) == conf_os(),
            build@ == "nginx_build"@,
            version@ == "nginx_version"@,
            number@ == "nginx_version_number"@,
            zero@ == "0"@,
            start == (ConfState { out: Seq::empty(), os: Seq::empty(), features: Seq::empty() }),
            after_lines(start, lines(expanded@), 0) == after_lines(
                ConfState { out: texts(out@), os: os@, features: texts(features@) },
                lines(expanded@),
                k as int,
            ),
        decreases all@.len() - k,
    {
        let line = all[k].as_slice();
        assert(texts(all@)[k as int] == line@);
        match parse_entry(line) {
            None => {},
            Some((name, value)) => {
                if same(name.as_slice(), build.as_slice()) {
                    match unquote(value.as_slice()) {
                        Some(u) => {
                            let l = line_of("cargo::metadata=build=", u.as_slice());
                            proof {
                                lemma_texts_push(out@, l);
                            }
                            out.push(l);
                        },
                        None => {
                            proof {
                                let c = ConfState {
                                    out: texts(out@),
                                    os: os@,
                                    features: texts(features@),
                                };
                                assert(after_entry(c, name@, value@) is None);
                                assert(after_lines(c, lines(expanded@), k as int) is None);
                            }
                            return None;
                        },
                    }
                } else if same(name.as_slice(), version.as_slice()) {
                    match unquote(value.as_slice()) {
                        Some(u) => {
                            let l = line_of("cargo::metadata=version=", u.as_slice());
                            proof {
                                lemma_texts_push(out@, l);
                            }
                            out.push(l);
                        },
                        None => {
                            proof {
                                let c = ConfState {
                                    out: texts(out@),
                                    os: os@,
                                    features: texts(features@),
                                };
                                assert(after_entry(c, name@, value@) is None);
                                assert(after_lines(c, lines(expanded@), k as int) is None);
                            }
                            return None;
                        },
                    }
                } else if same(name.as_slice(), number.as_slice()) {
                    let l = line_of("cargo::metadata=version_number=", value.as_slice());
                    proof {
                        lemma_texts_push(out@, l);
                    }
                    out.push(l);
                } else if holds(&os_known, name.as_slice()) {
                    os = name;
                } else if holds(&features_known, name.as_slice()) && !same(
                    value.as_slice(),
                    zero.as_slice(),
                ) {
                    proof {
                        lemma_texts_push(features@, name);
                    }
                    features.push(name);
                }
            },
        }
        k = k + 1;
    }
    let ghost c = ConfState { out: texts(out@), os: os@, features: texts(features@) };
    let mut l1 = chars("cargo::metadata=");
    let key = vec!['i', 'n', 'c', 'l', 'u', 'd', 'e'];
    assert(key@ =~= directories_key());
    push_all(&mut l1, key.as_slice());
    let eq = chars("=");
    push_all(&mut l1, eq.as_slice());
    push_all(&mut l1, directories);
    let l2 = list_line("cargo::metadata=features_check=\"", &features_known, "\",\"", "\"");
    let l3 = list_line("cargo::metadata=features=", &features, ",", "");
    let l4 = list_line("cargo::metadata=os_check=\"", &os_known, "\",\"", "\"");
    let l5 = line_of("cargo::metadata=os=", os.as_slice());
    proof {
        reveal_strlit("");
        assert(l3@ =~= "cargo::metadata=features="@ + join(c.features, ","@));
    }
    let ghost before = out@;
    out.push(l1);
    out.push(l2);
    out.push(l3);
    out.push(l4);
    out.push(l5);
    proof {
        assert(texts(out@) =~= texts(before) + closing_lines(c, directories@));
    }
    Some(out)
}

} // verus!
