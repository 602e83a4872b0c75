//! Where a cache entry lies on disk.
//!
//! ```text
//! <cache_root>/
//!   <service>/
//!     <key>/
//!       .lock          held while the entry is built and published
//!       out/           the published executable
//!       logs/          one log per build attempt
//!       meta/          the provenance document
//! ```
//!
//! Nothing here touches the file system: the functions map names to paths.

use crate::path::{is_name, join, join_path, lemma_join_injective, lemma_join_name, with_slash};
use crate::text::{
    decimal, decimal_string, lemma_decimal_digits, lemma_decimal_injective, lemma_split_unique,
};
use vstd::prelude::*;
use vstd::string::*;

verus! {

/// The directories and the lock file of one cache entry.
#[derive(Debug)]
pub struct CacheLayout {
    pub root: String,
    pub out: String,
    pub logs: String,
    pub meta: String,
    pub lock_path: String,
}

/// The mathematical value of a [`CacheLayout`].
pub struct CacheLayoutView {
    pub root: Seq<char>,
    pub out: Seq<char>,
    pub logs: Seq<char>,
    pub meta: Seq<char>,
    pub lock_path: Seq<char>,
}

impl View for CacheLayout {
    type V = CacheLayoutView;

    open spec fn view(&self) -> CacheLayoutView {
        CacheLayoutView {
            root: self.root@,
            out: self.out@,
            logs: self.logs@,
            meta: self.meta@,
            lock_path: self.lock_path@,
        }
    }
}

impl Clone for CacheLayout {
    fn clone(&self) -> (res: Self)
        ensures
            res == *self,
    {
        CacheLayout {
            root: self.root.clone(),
            out: self.out.clone(),
            logs: self.logs.clone(),
            meta: self.meta.clone(),
            lock_path: self.lock_path.clone(),
        }
    }
}

/// The root directory of the entry for `key` of `service`.
pub open spec fn entry_root(cache_root: Seq<char>, service: Seq<char>, key: Seq<char>) -> Seq<
    char,
> {
    join(join(cache_root, service), key)
}

/// The layout of the entry for `key` of `service` below `cache_root`.
pub open spec fn layout_of(
    cache_root: Seq<char>,
    service: Seq<char>,
    key: Seq<char>,
) -> CacheLayoutView {
    let root = entry_root(cache_root, service, key);
    CacheLayoutView {
        root,
        out: join(root, "out"@),
        logs: join(root, "logs"@),
        meta: join(root, "meta"@),
        lock_path: join(root, ".lock"@),
    }
}

/// The name that a file bears until it is complete: the final name and `.tmp`.
pub open spec fn temp_name(name: Seq<char>) -> Seq<char> {
    name + ".tmp"@
}

/// The name of the log of the build attempt that started at `started`,
/// in seconds since the epoch.
pub open spec fn log_name(started: u64) -> Seq<char> {
    "build-"@ + decimal(started as nat) + ".log"@
}

impl CacheLayoutView {
    /// Where the published executable named `binary` lies.
    pub open spec fn artifact_path(self, binary: Seq<char>) -> Seq<char> {
        join(self.out, binary)
    }

    /// Where the executable named `binary` is written before it is published.
    pub open spec fn artifact_temp_path(self, binary: Seq<char>) -> Seq<char> {
        join(self.out, temp_name(binary))
    }

    /// Where the provenance document lies.
    pub open spec fn provenance_path(self) -> Seq<char> {
        join(self.meta, "META.json"@)
    }

    /// Where the provenance document is written before it replaces the last one.
    pub open spec fn provenance_temp_path(self) -> Seq<char> {
        join(self.meta, temp_name("META.json"@))
    }

    /// Where the log of the build attempt that started at `started` lies.
    pub open spec fn log_path(self, started: u64) -> Seq<char> {
        join(self.logs, log_name(started))
    }
}

/// Maps a service and a key to the layout of their cache entry.
pub fn cache_paths(cache_root: &str, service: &str, key: &str) -> (layout: CacheLayout)
    ensures
        layout@ == layout_of(cache_root@, service@, key@),
{
    let service_dir = join_path(cache_root, service);
    let root = join_path(service_dir.as_str(), key);
    let out = join_path(root.as_str(), "out");
    let logs = join_path(root.as_str(), "logs");
    let meta = join_path(root.as_str(), "meta");
    let lock_path = join_path(root.as_str(), ".lock");
    CacheLayout { root, out, logs, meta, lock_path }
}

impl CacheLayout {
    /// Where the published executable named `binary` lies.
    pub fn artifact_path(&self, binary: &str) -> (path: String)
        ensures
            path@ == self@.artifact_path(binary@),
    {
        join_path(self.out.as_str(), binary)
    }

    /// Where the executable named `binary` is written before it is published.
    pub fn artifact_temp_path(&self, binary: &str) -> (path: String)
        ensures
            path@ == self@.artifact_temp_path(binary@),
    {
        let mut name = String::from_str(binary);
        name.append(".tmp");
        join_path(self.out.as_str(), name.as_str())
    }

    /// Where the provenance document lies.
    pub fn provenance_path(&self) -> (path: String)
        ensures
            path@ == self@.provenance_path(),
    {
        join_path(self.meta.as_str(), "META.json")
    }

    /// Where the provenance document is written before it replaces the last one.
    pub fn provenance_temp_path(&self) -> (path: String)
        ensures
            path@ == self@.provenance_temp_path(),
    {
        let mut name = String::from_str("META.json");
        name.append(".tmp");
        join_path(self.meta.as_str(), name.as_str())
    }

    /// Where the log of the build attempt that started at `started` lies.
    pub fn log_path(&self, started: u64) -> (path: String)
        ensures
            path@ == self@.log_path(started),
    {
        let mut name = String::from_str("build-");
        let digits = decimal_string(started);
        name.append(digits.as_str());
        name.append(".log");
        join_path(self.logs.as_str(), name.as_str())
    }
}

/// The names of the areas of an entry are names, and differ from one another.
proof fn lemma_area_names()
    ensures
        is_name("out"@),
        is_name("logs"@),
        is_name("meta"@),
        is_name(".lock"@),
        "out"@ != "logs"@,
        "out"@ != "meta"@,
        "out"@ != ".lock"@,
        "logs"@ != "meta"@,
        "logs"@ != ".lock"@,
        "meta"@ != ".lock"@,
{
    reveal_strlit("out");
    reveal_strlit("logs");
    reveal_strlit("meta");
    reveal_strlit(".lock");
    assert("logs"@[0] != "meta"@[0]);
}

/// The output, log and metadata directories and the lock file of an entry lie
/// below its root, and no two of the five paths are the same.
pub proof fn law_areas_distinct(cache_root: Seq<char>, service: Seq<char>, key: Seq<char>)
    ensures
        ({
            let l = layout_of(cache_root, service, key);
            &&& l.out == with_slash(l.root) + "out"@
            &&& l.logs == with_slash(l.root) + "logs"@
            &&& l.meta == with_slash(l.root) + "meta"@
            &&& l.lock_path == with_slash(l.root) + ".lock"@
            &&& l.root != l.out
            &&& l.root != l.logs
            &&& l.root != l.meta
            &&& l.root != l.lock_path
            &&& l.out != l.logs
            &&& l.out != l.meta
            &&& l.out != l.lock_path
            &&& l.logs != l.meta
            &&& l.logs != l.lock_path
            &&& l.meta != l.lock_path
        }),
{
    let l = layout_of(cache_root, service, key);
    lemma_area_names();
    lemma_join_name(l.root, "out"@);
    lemma_join_name(l.root, "logs"@);
    lemma_join_name(l.root, "meta"@);
    lemma_join_name(l.root, ".lock"@);
    if l.out == l.logs {
        lemma_join_injective(l.root, "out"@, "logs"@);
    }
    if l.out == l.meta {
        lemma_join_injective(l.root, "out"@, "meta"@);
    }
    if l.out == l.lock_path {
        lemma_join_injective(l.root, "out"@, ".lock"@);
    }
    if l.logs == l.meta {
        lemma_join_injective(l.root, "logs"@, "meta"@);
    }
    if l.logs == l.lock_path {
        lemma_join_injective(l.root, "logs"@, ".lock"@);
    }
    if l.meta == l.lock_path {
        lemma_join_injective(l.root, "meta"@, ".lock"@);
    }
}

/// The root of an entry is the cache root, the service and the key, one
/// below the other.
pub proof fn lemma_entry_root(cache_root: Seq<char>, service: Seq<char>, key: Seq<char>)
    requires
        is_name(service),
        is_name(key),
    ensures
        entry_root(cache_root, service, key) == with_slash(cache_root) + (service.push('/') + key),
        entry_root(cache_root, service, key).len() > 0,
        entry_root(cache_root, service, key).last() != '/',
{
    lemma_join_name(cache_root, service);
    lemma_join_name(join(cache_root, service), key);
    assert(entry_root(cache_root, service, key) =~= with_slash(cache_root) + (service.push('/')
        + key));
}

/// Two entries below one cache root share no path, unless they are the entry
/// of one service and one key: their roots differ, and so do their lock
/// files and each of their directories.
pub proof fn law_entries_disjoint(
    cache_root: Seq<char>,
    service_a: Seq<char>,
    key_a: Seq<char>,
    service_b: Seq<char>,
    key_b: Seq<char>,
)
    requires
        is_name(service_a),
        is_name(key_a),
        is_name(service_b),
        is_name(key_b),
        service_a != service_b || key_a != key_b,
    ensures
        ({
            let a = layout_of(cache_root, service_a, key_a);
            let b = layout_of(cache_root, service_b, key_b);
            &&& a.root != b.root
            &&& a.lock_path != b.lock_path
            &&& a.out != b.out
            &&& a.logs != b.logs
            &&& a.meta != b.meta
        }),
{
    let a = layout_of(cache_root, service_a, key_a);
    let b = layout_of(cache_root, service_b, key_b);
    lemma_entry_root(cache_root, service_a, key_a);
    lemma_entry_root(cache_root, service_b, key_b);
    if a.root == b.root {
        crate::path::lemma_prefix_cancel(
            with_slash(cache_root),
            service_a.push('/') + key_a,
            service_b.push('/') + key_b,
        );
        lemma_split_unique(service_a, key_a, service_b, key_b, '/');
    }
    law_areas_distinct(cache_root, service_a, key_a);
    law_areas_distinct(cache_root, service_b, key_b);
    lemma_area_names();
    lemma_suffix_cancel(with_slash(a.root), with_slash(b.root), "out"@);
    lemma_suffix_cancel(with_slash(a.root), with_slash(b.root), "logs"@);
    lemma_suffix_cancel(with_slash(a.root), with_slash(b.root), "meta"@);
    lemma_suffix_cancel(with_slash(a.root), with_slash(b.root), ".lock"@);
    assert(with_slash(a.root) == a.root.push('/'));
    assert(with_slash(b.root) == b.root.push('/'));
    if a.root.push('/') == b.root.push('/') {
        assert(a.root =~= a.root.push('/').drop_last());
        assert(b.root =~= b.root.push('/').drop_last());
    }
}

/// Text that is put before a common ending can be read back.
proof fn lemma_suffix_cancel(x: Seq<char>, y: Seq<char>, s: Seq<char>)
    ensures
        x + s == y + s ==> x == y,
{
    if x + s == y + s {
        assert((x + s).len() == x.len() + s.len());
        assert((y + s).len() == y.len() + s.len());
        assert(x =~= (x + s).subrange(0, x.len() as int));
        assert(y =~= (y + s).subrange(0, y.len() as int));
    }
}

/// A file is never written under the name it is published under: the
/// temporary path of an artifact differs from its final path and lies in the
/// same directory, and likewise for the provenance document.
pub proof fn law_temp_beside_final(layout: CacheLayoutView, binary: Seq<char>)
    requires
        is_name(binary),
    ensures
        layout.artifact_temp_path(binary) != layout.artifact_path(binary),
        layout.artifact_path(binary) == with_slash(layout.out) + binary,
        layout.artifact_temp_path(binary) == with_slash(layout.out) + temp_name(binary),
        layout.provenance_temp_path() != layout.provenance_path(),
        layout.provenance_path() == with_slash(layout.meta) + "META.json"@,
        layout.provenance_temp_path() == with_slash(layout.meta) + temp_name("META.json"@),
{
    reveal_strlit(".tmp");
    reveal_strlit("META.json");
    assert(is_name(temp_name(binary))) by {
        assert forall|i: int| 0 <= i < temp_name(binary).len() implies temp_name(binary)[i]
            != '/' by {
            if i < binary.len() {
                assert(temp_name(binary)[i] == binary[i]);
            } else {
                assert(temp_name(binary)[i] == ".tmp"@[i - binary.len()]);
            }
        }
    }
    assert(is_name("META.json"@));
    assert(is_name(temp_name("META.json"@))) by {
        assert forall|i: int| 0 <= i < temp_name("META.json"@).len() implies temp_name(
            "META.json"@,
        )[i] != '/' by {
            if i < 9 {
                assert(temp_name("META.json"@)[i] == "META.json"@[i]);
            } else {
                assert(temp_name("META.json"@)[i] == ".tmp"@[i - 9]);
            }
        }
    }
    lemma_join_name(layout.out, binary);
    lemma_join_name(layout.out, temp_name(binary));
    lemma_join_name(layout.meta, "META.json"@);
    lemma_join_name(layout.meta, temp_name("META.json"@));
    assert(layout.artifact_temp_path(binary).len() == layout.artifact_path(binary).len() + 4);
    assert(layout.provenance_temp_path().len() == layout.provenance_path().len() + 4);
}

/// Build attempts that start at different times write different logs.
pub proof fn law_logs_distinct(layout: CacheLayoutView, started_a: u64, started_b: u64)
    requires
        started_a != started_b,
    ensures
        layout.log_path(started_a) != layout.log_path(started_b),
{
    lemma_log_name(started_a);
    lemma_log_name(started_b);
    if layout.log_path(started_a) == layout.log_path(started_b) {
        lemma_join_injective(layout.logs, log_name(started_a), log_name(started_b));
        let da = decimal(started_a as nat);
        let db = decimal(started_b as nat);
        crate::path::lemma_prefix_cancel("build-"@, da + ".log"@, db + ".log"@);
        lemma_suffix_cancel(da, db, ".log"@);
        lemma_decimal_injective(started_a as nat, started_b as nat);
    }
}

/// The name of a log is a name.
proof fn lemma_log_name(started: u64)
    ensures
        is_name(log_name(started)),
        log_name(started) == "build-"@ + (decimal(started as nat) + ".log"@),
{
    reveal_strlit("build-");
    reveal_strlit(".log");
    lemma_decimal_digits(started as nat);
    let d = decimal(started as nat);
    let n = log_name(started);
    assert(n =~= "build-"@ + (d + ".log"@));
    assert forall|i: int| 0 <= i < n.len() implies n[i] != '/' by {
        if i < 6 {
            assert(n[i] == "build-"@[i]);
        } else if i < 6 + d.len() {
            assert(n[i] == d[i - 6]);
            assert(crate::text::is_digit(d[i - 6]));
        } else {
            assert(n[i] == ".log"@[i - 6 - d.len()]);
        }
    }
}

} // verus!
