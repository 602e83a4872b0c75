//! The provenance record of a published artifact and its document.
//!
//! The document is a JSON object with one member per line, in a fixed order.
//! It is advisory: whether an entry is cached is decided by the executable
//! in the entry's output directory, never by this record.

use crate::text::{decimal, decimal_string};
use vstd::prelude::*;
use vstd::string::*;

verus! {

/// How an artifact was produced.
#[derive(Debug)]
pub struct Provenance {
    pub service: String,
    /// The kind of source that the artifact came from.
    pub source: String,
    pub repo: String,
    /// The refspec as it was requested.
    pub refspec: String,
    /// The commit that the refspec resolved to.
    pub commit: String,
    pub dirty: bool,
    pub worktree_hash: Option<String>,
    pub jobs: u32,
    pub host: String,
    /// When the build started, in seconds since the epoch.
    pub built_at: u64,
    pub builder_schema: u32,
    /// What the executable says of its own version, where it could be asked.
    pub version_string: Option<String>,
}

/// The mathematical value of a [`Provenance`].
pub struct ProvenanceView {
    pub service: Seq<char>,
    pub source: Seq<char>,
    pub repo: Seq<char>,
    pub refspec: Seq<char>,
    pub commit: Seq<char>,
    pub dirty: bool,
    pub worktree_hash: Option<Seq<char>>,
    pub jobs: u32,
    pub host: Seq<char>,
    pub built_at: u64,
    pub builder_schema: u32,
    pub version_string: Option<Seq<char>>,
}

impl View for Provenance {
    type V = ProvenanceView;

    open spec fn view(&self) -> ProvenanceView {
        ProvenanceView {
            service: self.service@,
            source: self.source@,
            repo: self.repo@,
            refspec: self.refspec@,
            commit: self.commit@,
            dirty: self.dirty,
            worktree_hash: self.worktree_hash.deep_view(),
            jobs: self.jobs,
            host: self.host@,
            built_at: self.built_at,
            builder_schema: self.builder_schema,
            version_string: self.version_string.deep_view(),
        }
    }
}

/// The hexadecimal digit for `d`, in lower case.
pub open spec fn hex_char(d: nat) -> char
    recommends
        d < 16,
{
    if d < 10 {
        crate::text::digit_char(d)
    } else if d == 10 {
        'a'
    } else if d == 11 {
        'b'
    } else if d == 12 {
        'c'
    } else if d == 13 {
        'd'
    } else if d == 14 {
        'e'
    } else {
        'f'
    }
}

/// How one character stands inside a JSON string: the quotation mark and the
/// backslash behind a backslash; line feed, carriage return and tab by their
/// letters; any other control character by its code; every other character
/// as itself.
pub open spec fn escape_char(c: char) -> Seq<char> {
    if c == '"' {
        seq!['\\', '"']
    } else if c == '\\' {
        seq!['\\', '\\']
    } else if c == '\n' {
        seq!['\\', 'n']
    } else if c == '\r' {
        seq!['\\', 'r']
    } else if c == '\t' {
        seq!['\\', 't']
    } else if (c as u32) < 0x20 {
        seq!['\\', 'u', '0', '0', hex_char(((c as u32) / 16) as nat), hex_char(
            ((c as u32) % 16) as nat,
        )]
    } else {
        seq![c]
    }
}

/// The characters of `s` as they stand inside a JSON string.
pub open spec fn escape(s: Seq<char>) -> Seq<char>
    decreases s.len(),
{
    if s.len() == 0 {
        Seq::empty()
    } else {
        escape(s.drop_last()) + escape_char(s.last())
    }
}

/// `s` as a JSON string.
pub open spec fn json_string(s: Seq<char>) -> Seq<char> {
    seq!['"'] + escape(s) + seq!['"']
}

/// `s` as a JSON string, or `null` where there is none.
pub open spec fn json_optional_string(s: Option<Seq<char>>) -> Seq<char> {
    match s {
        Some(t) => json_string(t),
        None => "null"@,
    }
}

/// `b` as a JSON value.
pub open spec fn json_bool(b: bool) -> Seq<char> {
    if b {
        "true"@
    } else {
        "false"@
    }
}

/// One member of the document: two spaces, the name in quotation marks, a
/// colon, a space and the value.
pub open spec fn member(name: Seq<char>, value: Seq<char>) -> Seq<char> {
    "  \""@ + name + "\": "@ + value
}

/// What stands between two members of the document.
pub open spec fn separator() -> Seq<char> {
    ",\n"@
}

/// The provenance document of `p`.
pub open spec fn document(p: ProvenanceView) -> Seq<char> {
    "{\n"@ + member("service"@, json_string(p.service)) + separator() + member(
        "source"@,
        json_string(p.source),
    ) + separator() + member("repo"@, json_string(p.repo)) + separator() + member(
        "refspec"@,
        json_string(p.refspec),
    ) + separator() + member("commit"@, json_string(p.commit)) + separator() + member(
        "dirty"@,
        json_bool(p.dirty),
    ) + separator() + member("worktree_hash"@, json_optional_string(p.worktree_hash))
        + separator() + member("jobs"@, decimal(p.jobs as nat)) + separator() + member(
        "host"@,
        json_string(p.host),
    ) + separator() + member("built_at"@, decimal(p.built_at as nat)) + separator() + member(
        "builder_schema"@,
        decimal(p.builder_schema as nat),
    ) + separator() + member("version_string"@, json_optional_string(p.version_string)) + "\n}\n"@
}

/// The text of one hexadecimal digit.
fn hex_str(d: u32) -> (s: &'static str)
    requires
        d < 16,
    ensures
        s@ == seq![hex_char(d as nat)],
{
    proof {
        reveal_strlit("0");
        reveal_strlit("1");
        reveal_strlit("2");
        reveal_strlit("3");
        reveal_strlit("4");
        reveal_strlit("5");
        reveal_strlit("6");
        reveal_strlit("7");
        reveal_strlit("8");
        reveal_strlit("9");
        reveal_strlit("a");
        reveal_strlit("b");
        reveal_strlit("c");
        reveal_strlit("d");
        reveal_strlit("e");
        reveal_strlit("f");
    }
    let s = if d == 0 {
        "0"
    } else if d == 1 {
        "1"
    } else if d == 2 {
        "2"
    } else if d == 3 {
        "3"
    } else if d == 4 {
        "4"
    } else if d == 5 {
        "5"
    } else if d == 6 {
        "6"
    } else if d == 7 {
        "7"
    } else if d == 8 {
        "8"
    } else if d == 9 {
        "9"
    } else if d == 10 {
        "a"
    } else if d == 11 {
        "b"
    } else if d == 12 {
        "c"
    } else if d == 13 {
        "d"
    } else if d == 14 {
        "e"
    } else {
        "f"
    };
    assert(s@ =~= seq![hex_char(d as nat)]);
    s
}

/// Appends the character at `i` of `s` to `out` as it stands inside a JSON
/// string.
fn append_escaped_char(out: &mut String, s: &str, i: usize)
    requires
        i < s@.len(),
        s@.len() <= usize::MAX,
    ensures
        final(out)@ == old(out)@ + escape_char(s@[i as int]),
{
    let c = s.get_char(i);
    if c == '"' {
        out.append("\\\"");
        proof {
            reveal_strlit("\\\"");
            assert("\\\""@ =~= seq!['\\', '"']);
        }
    } else if c == '\\' {
        out.append("\\\\");
        proof {
            reveal_strlit("\\\\");
            assert("\\\\"@ =~= seq!['\\', '\\']);
        }
    } else if c == '\n' {
        out.append("\\n");
        proof {
            reveal_strlit("\\n");
            assert("\\n"@ =~= seq!['\\', 'n']);
        }
    } else if c == '\r' {
        out.append("\\r");
        proof {
            reveal_strlit("\\r");
            assert("\\r"@ =~= seq!['\\', 'r']);
        }
    } else if c == '\t' {
        out.append("\\t");
        proof {
            reveal_strlit("\\t");
            assert("\\t"@ =~= seq!['\\', 't']);
        }
    } else {
        let code: u32 = c as u32;
        if code < 0x20 {
            out.append("\\u00");
            out.append(hex_str(code / 16));
            out.append(hex_str(code % 16));
            proof {
                reveal_strlit("\\u00");
                assert("\\u00"@ =~= seq!['\\', 'u', '0', '0']);
                assert(out@ =~= old(out)@ + escape_char(c));
            }
        } else {
            out.append(s.substring_char(i, i + 1));
            proof {
                assert(s@.subrange(i as int, i + 1) =~= seq![c]);
            }
        }
    }
}

/// Appends `s` to `out` as a JSON string.
pub fn append_json_string(out: &mut String, s: &str)
    ensures
        final(out)@ == old(out)@ + json_string(s@),
{
    let n = s.unicode_len();
    out.append("\"");
    proof {
        reveal_strlit("\"");
        assert("\""@ =~= seq!['"']);
    }
    let mut i: usize = 0;
    while i < n
        invariant
            n == s@.len(),
            i <= n,
            out@ == old(out)@ + seq!['"'] + escape(s@.subrange(0, i as int)),
        decreases n - i,
    {
        append_escaped_char(out, s, i);
        proof {
            let next = s@.subrange(0, i + 1);
            assert(next.drop_last() =~= s@.subrange(0, i as int));
            assert(next.last() == s@[i as int]);
            assert(out@ =~= old(out)@ + seq!['"'] + escape(next));
        }
        i += 1;
    }
    out.append("\"");
    proof {
        assert(s@.subrange(0, n as int) =~= s@);
        assert(out@ =~= old(out)@ + json_string(s@));
    }
}

/// `s` as a JSON string.
pub fn json_string_text(s: &str) -> (text: String)
    ensures
        text@ == json_string(s@),
{
    let mut text = String::new();
    append_json_string(&mut text, s);
    assert(text@ =~= json_string(s@));
    text
}

/// `s` as a JSON string, or `null` where there is none.
pub fn json_optional_string_text(s: &Option<String>) -> (text: String)
    ensures
        text@ == json_optional_string(s.deep_view()),
{
    match s {
        Some(t) => json_string_text(t.as_str()),
        None => String::from_str("null"),
    }
}

/// Appends the member `name` with the value `value` to `out`.
fn append_member(out: &mut String, name: &str, value: &str)
    ensures
        final(out)@ == old(out)@ + member(name@, value@),
{
    out.append("  \"");
    out.append(name);
    out.append("\": ");
    out.append(value);
    assert(out@ =~= old(out)@ + member(name@, value@));
}

impl Provenance {
    /// Writes the provenance document.
    pub fn render(&self) -> (doc: String)
        ensures
            doc@ == document(self@),
    {
        let service = json_string_text(self.service.as_str());
        let source = json_string_text(self.source.as_str());
        let repo = json_string_text(self.repo.as_str());
        let refspec = json_string_text(self.refspec.as_str());
        let commit = json_string_text(self.commit.as_str());
        let dirty = if self.dirty {
            "true"
        } else {
            "false"
        };
        let worktree_hash = json_optional_string_text(&self.worktree_hash);
        let jobs = decimal_string(self.jobs as u64);
        let host = json_string_text(self.host.as_str());
        let built_at = decimal_string(self.built_at);
        let schema = decimal_string(self.builder_schema as u64);
        let version = json_optional_string_text(&self.version_string);
        let mut out = String::from_str("{\n");
        append_member(&mut out, "service", service.as_str());
        out.append(",\n");
        append_member(&mut out, "source", source.as_str());
        out.append(",\n");
        append_member(&mut out, "repo", repo.as_str());
        out.append(",\n");
        append_member(&mut out, "refspec", refspec.as_str());
        out.append(",\n");
        append_member(&mut out, "commit", commit.as_str());
        out.append(",\n");
        append_member(&mut out, "dirty", dirty);
        out.append(",\n");
        append_member(&mut out, "worktree_hash", worktree_hash.as_str());
        out.append(",\n");
        append_member(&mut out, "jobs", jobs.as_str());
        out.append(",\n");
        append_member(&mut out, "host", host.as_str());
        out.append(",\n");
        append_member(&mut out, "built_at", built_at.as_str());
        out.append(",\n");
        append_member(&mut out, "builder_schema", schema.as_str());
        out.append(",\n");
        append_member(&mut out, "version_string", version.as_str());
        out.append("\n}\n");
        out
    }
}

} // verus!
