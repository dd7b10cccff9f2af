//! The canonical text encoding of the archive index: a compact JSON
//! document, with the exact string escaping the archive consumers expect.

use vstd::prelude::*;
use vstd::string::StrSliceExecFns;
use vstd::string::StringExecFns;

use crate::mrpack::Env;
use crate::mrpack::File;
use crate::mrpack::FileView;
use crate::mrpack::Metadata;
use crate::mrpack::MetadataView;
use crate::mrpack::game_token;
use crate::mrpack::requirement_token;
use crate::text::dec_spec;
use crate::text::hex_digit;
use crate::text::hex_digit_spec;
use crate::text::push_char;

verus! {

/// How one character is written inside a JSON string: the quote and the
/// backslash get a backslash escape, the named control characters their
/// short forms, every other control character a hexadecimal escape, and
/// everything else stands as itself.
pub open spec fn escape_char(c: char) -> Seq<char> {
    if c == '"' {
        seq!['\\', '"']
    } else if c == '\\' {
        seq!['\\', '\\']
    } else if c == '\u{8}' {
        seq!['\\', 'b']
    } else if c == '\t' {
        seq!['\\', 't']
    } else if c == '\n' {
        seq!['\\', 'n']
    } else if c == '\u{c}' {
        seq!['\\', 'f']
    } else if c == '\r' {
        seq!['\\', 'r']
    } else if (c as u32) < 32 {
        seq!['\\', 'u', '0', '0', hex_digit_spec((c as u32 / 16) as int), hex_digit_spec(
            (c as u32 % 16) as int,
        )]
    } else {
        seq![c]
    }
}

/// A string's characters, each escaped.
pub open spec fn escape_str(s: Seq<char>) -> Seq<char>
    decreases s.len(),
{
    if s.len() == 0 {
        Seq::empty()
    } else {
        escape_str(s.drop_last()) + escape_char(s.last())
    }
}

/// A JSON string literal: the escaped characters between double quotes.
pub open spec fn json_string(s: Seq<char>) -> Seq<char> {
    seq!['"'] + escape_str(s) + seq!['"']
}

/// An environment requirement pair as a JSON object.
pub open spec fn env_json(e: Env) -> Seq<char> {
    "{\"client\":\""@ + requirement_token(e.client) + "\",\"server\":\""@ + requirement_token(
        e.server,
    ) + "\"}"@
}

/// One `"key":"value"` member of a JSON object.
pub open spec fn pair_json(p: (Seq<char>, Seq<char>)) -> Seq<char> {
    json_string(p.0) + ":"@ + json_string(p.1)
}

/// The members of a string-to-string JSON object, comma-separated.
pub open spec fn pairs_json(ps: Seq<(Seq<char>, Seq<char>)>) -> Seq<char>
    decreases ps.len(),
{
    if ps.len() == 0 {
        Seq::empty()
    } else if ps.len() == 1 {
        pair_json(ps[0])
    } else {
        pairs_json(ps.drop_last()) + ","@ + pair_json(ps.last())
    }
}

/// A string-to-string JSON object.
pub open spec fn obj_json(ps: Seq<(Seq<char>, Seq<char>)>) -> Seq<char> {
    "{"@ + pairs_json(ps) + "}"@
}

/// The elements of a JSON array of strings, comma-separated.
pub open spec fn strings_json(ss: Seq<Seq<char>>) -> Seq<char>
    decreases ss.len(),
{
    if ss.len() == 0 {
        Seq::empty()
    } else if ss.len() == 1 {
        json_string(ss[0])
    } else {
        strings_json(ss.drop_last()) + ","@ + json_string(ss.last())
    }
}

/// A JSON array of strings.
pub open spec fn string_list_json(ss: Seq<Seq<char>>) -> Seq<char> {
    "["@ + strings_json(ss) + "]"@
}

/// One resolved file as a JSON object; the `env` member is omitted when
/// the file has no environment requirement.
pub open spec fn file_json(f: FileView) -> Seq<char> {
    "{\"path\":"@ + json_string(f.path) + ",\"hashes\":"@ + obj_json(f.hashes) + (match f.env {
        Some(e) => ",\"env\":"@ + env_json(e),
        None => Seq::<char>::empty(),
    }) + ",\"downloads\":"@ + string_list_json(f.downloads) + ",\"fileSize\":"@ + dec_spec(
        f.file_size as nat,
    ) + "}"@
}

/// The resolved files, each as a JSON object, comma-separated.
pub open spec fn files_json(fs: Seq<FileView>) -> Seq<char>
    decreases fs.len(),
{
    if fs.len() == 0 {
        Seq::empty()
    } else if fs.len() == 1 {
        file_json(fs[0])
    } else {
        files_json(fs.drop_last()) + ","@ + file_json(fs.last())
    }
}

/// The whole canonical index as one compact JSON document; the `summary`
/// member is omitted when the pack has none.
pub open spec fn metadata_json(m: MetadataView) -> Seq<char> {
    "{\"formatVersion\":"@ + dec_spec(m.format_version as nat) + ",\"game\":\""@ + game_token(
        m.game,
    ) + "\",\"versionId\":"@ + json_string(m.version_id) + ",\"name\":"@ + json_string(m.name)
        + (match m.summary {
        Some(s) => ",\"summary\":"@ + json_string(s),
        None => Seq::<char>::empty(),
    }) + ",\"files\":["@ + files_json(m.files) + "],\"dependencies\":"@ + obj_json(
        m.dependencies,
    ) + "}"@
}

/// Appends a string's characters, escaped for JSON.
pub fn append_json_escaped(out: &mut String, s: &str)
    ensures
        final(out)@ == old(out)@ + escape_str(s@),
{
    let len = s.unicode_len();
    proof {
        assert(out@ =~= old(out)@ + escape_str(s@.take(0)));
    }
    let mut i: usize = 0;
    while i < len
        invariant
            i <= len,
            len == s@.len(),
            out@ == old(out)@ + escape_str(s@.take(i as int)),
        decreases len - i,
    {
        let c = s.get_char(i);
        if c == '"' {
            push_char(out, '\\');
            push_char(out, '"');
        } else if c == '\\' {
            push_char(out, '\\');
            push_char(out, '\\');
        } else if c == '\u{8}' {
            push_char(out, '\\');
            push_char(out, 'b');
        } else if c == '\t' {
            push_char(out, '\\');
            push_char(out, 't');
        } else if c == '\n' {
            push_char(out, '\\');
            push_char(out, 'n');
        } else if c == '\u{c}' {
            push_char(out, '\\');
            push_char(out, 'f');
        } else if c == '\r' {
            push_char(out, '\\');
            push_char(out, 'r');
        } else if (c as u32) < 32 {
            push_char(out, '\\');
            push_char(out, 'u');
            push_char(out, '0');
            push_char(out, '0');
            let code = c as u32;
            let hi = hex_digit((code / 16) as u8);
            let lo = hex_digit((code % 16) as u8);
            push_char(out, hi);
            push_char(out, lo);
        } else {
            push_char(out, c);
        }
        proof {
            assert(s@.take(i + 1).drop_last() =~= s@.take(i as int));
            assert(s@.take(i + 1).last() == s@[i as int]);
            assert(out@ =~= old(out)@ + escape_str(s@.take(i + 1)));
        }
        i = i + 1;
    }
    proof {
        assert(s@.take(len as int) =~= s@);
    }
}

/// Appends a whole JSON string literal.
pub fn append_json_string(out: &mut String, s: &str)
    ensures
        final(out)@ == old(out)@ + json_string(s@),
{
    push_char(out, '"');
    append_json_escaped(out, s);
    push_char(out, '"');
    proof {
        assert(out@ =~= old(out)@ + json_string(s@));
    }
}

/// Appends an environment requirement pair as a JSON object.
pub fn append_env(out: &mut String, e: &Env)
    ensures
        final(out)@ == old(out)@ + env_json(*e),
{
    out.append("{\"client\":\"");
    out.append(e.client.as_str());
    out.append("\",\"server\":\"");
    out.append(e.server.as_str());
    out.append("\"}");
    proof {
        assert(out@ =~= old(out)@ + env_json(*e));
    }
}

/// Appends a string-to-string JSON object, members in list order.
pub fn append_string_map(out: &mut String, pairs: &Vec<(String, String)>)
    ensures
        final(out)@ == old(out)@ + obj_json(pairs.deep_view()),
{
    out.append("{");
    proof {
        assert(out@ =~= old(out)@ + "{"@ + pairs_json(pairs.deep_view().take(0)));
    }
    let n = pairs.len();
    let mut k: usize = 0;
    while k < n
        invariant
            k <= n,
            n == pairs@.len(),
            out@ == old(out)@ + "{"@ + pairs_json(pairs.deep_view().take(k as int)),
        decreases n - k,
    {
        if k > 0 {
            out.append(",");
        }
        append_json_string(out, pairs[k].0.as_str());
        out.append(":");
        append_json_string(out, pairs[k].1.as_str());
        proof {
            assert(pairs.deep_view().take(k + 1).drop_last() =~= pairs.deep_view().take(
                k as int,
            ));
            assert(pairs.deep_view().take(k + 1).last() == pairs.deep_view()[k as int]);
            assert(pairs.deep_view()[k as int].0 == pairs@[k as int].0@);
            assert(pairs.deep_view()[k as int].1 == pairs@[k as int].1@);
            assert(out@ =~= old(out)@ + "{"@ + pairs_json(pairs.deep_view().take(k + 1)));
        }
        k = k + 1;
    }
    out.append("}");
    proof {
        assert(pairs.deep_view().take(n as int) =~= pairs.deep_view());
        assert(out@ =~= old(out)@ + obj_json(pairs.deep_view()));
    }
}

/// Appends a JSON array of strings, elements in list order.
pub fn append_string_list(out: &mut String, ss: &Vec<String>)
    ensures
        final(out)@ == old(out)@ + string_list_json(ss.deep_view()),
{
    out.append("[");
    proof {
        assert(out@ =~= old(out)@ + "["@ + strings_json(ss.deep_view().take(0)));
    }
    let n = ss.len();
    let mut k: usize = 0;
    while k < n
        invariant
            k <= n,
            n == ss@.len(),
            out@ == old(out)@ + "["@ + strings_json(ss.deep_view().take(k as int)),
        decreases n - k,
    {
        if k > 0 {
            out.append(",");
        }
        append_json_string(out, ss[k].as_str());
        proof {
            assert(ss.deep_view().take(k + 1).drop_last() =~= ss.deep_view().take(k as int));
            assert(ss.deep_view().take(k + 1).last() == ss.deep_view()[k as int]);
            assert(ss.deep_view()[k as int] == ss@[k as int]@);
            assert(out@ =~= old(out)@ + "["@ + strings_json(ss.deep_view().take(k + 1)));
        }
        k = k + 1;
    }
    out.append("]");
    proof {
        assert(ss.deep_view().take(n as int) =~= ss.deep_view());
        assert(out@ =~= old(out)@ + string_list_json(ss.deep_view()));
    }
}

/// Appends one resolved file as a JSON object.
pub fn append_file(out: &mut String, f: &File)
    ensures
        final(out)@ == old(out)@ + file_json(f@),
{
    out.append("{\"path\":");
    append_json_string(out, f.path.as_str());
    out.append(",\"hashes\":");
    append_string_map(out, &f.hashes);
    match &f.env {
        Some(e) => {
            out.append(",\"env\":");
            append_env(out, e);
        },
        None => {},
    }
    out.append(",\"downloads\":");
    append_string_list(out, &f.downloads);
    out.append(",\"fileSize\":");
    crate::text::append_u64(out, f.file_size);
    out.append("}");
    proof {
        assert(out@ =~= old(out)@ + file_json(f@));
    }
}

/// Appends the resolved files, comma-separated.
pub fn append_files(out: &mut String, fs: &Vec<File>)
    ensures
        final(out)@ == old(out)@ + files_json(fs.deep_view()),
{
    proof {
        assert(out@ =~= old(out)@ + files_json(fs.deep_view().take(0)));
    }
    let n = fs.len();
    let mut k: usize = 0;
    while k < n
        invariant
            k <= n,
            n == fs@.len(),
            out@ == old(out)@ + files_json(fs.deep_view().take(k as int)),
        decreases n - k,
    {
        if k > 0 {
            out.append(",");
        }
        append_file(out, &fs[k]);
        proof {
            assert(fs.deep_view().take(k + 1).drop_last() =~= fs.deep_view().take(k as int));
            assert(fs.deep_view().take(k + 1).last() == fs.deep_view()[k as int]);
            assert(fs.deep_view()[k as int] == fs@[k as int]@);
            assert(out@ =~= old(out)@ + files_json(fs.deep_view().take(k + 1)));
        }
        k = k + 1;
    }
    proof {
        assert(fs.deep_view().take(n as int) =~= fs.deep_view());
    }
}

/// Encodes the canonical index as one compact JSON document.
pub fn metadata_to_json(m: &Metadata) -> (r: String)
    ensures
        r@ == metadata_json(m@),
{
    let mut out = String::new();
    out.append("{\"formatVersion\":");
    crate::text::append_u64(&mut out, m.format_version as u64);
    out.append(",\"game\":\"");
    out.append(m.game.as_str());
    out.append("\",\"versionId\":");
    append_json_string(&mut out, m.version_id.as_str());
    out.append(",\"name\":");
    append_json_string(&mut out, m.name.as_str());
    match &m.summary {
        Some(s) => {
            out.append(",\"summary\":");
            append_json_string(&mut out, s.as_str());
        },
        None => {},
    }
    out.append(",\"files\":[");
    append_files(&mut out, &m.files);
    out.append("],\"dependencies\":");
    append_string_map(&mut out, &m.dependencies);
    out.append("}");
    proof {
        assert(out@ =~= metadata_json(m@));
    }
    out
}

} // verus!
