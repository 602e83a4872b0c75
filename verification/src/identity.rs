//! The identity of a buildable artifact and the cache key derived from it.
//!
//! A key is the text
//! `<service>|<commit>[+<worktree hash>]|<platform>|v<schema>`.
//! No component may hold `|`, `+` or `/`, so a key can be read back in one way
//! only, and names a single directory.

use crate::error::{InputError, InputErrorView};
use crate::registry::ServiceId;
use crate::text::{
    decimal, decimal_string, free_of, holds_char, is_digit, lemma_decimal_digits,
    lemma_decimal_injective, lemma_split_unique,
};
use vstd::prelude::*;
use vstd::string::*;

verus! {

/// The version of the cache layout and build recipe. Raising it makes every
/// earlier cache entry unreachable.
pub const SCHEMA_VERSION: u32 = 1;

/// Whether `s` can stand as one component of a key: not empty, and free of the
/// key's delimiters and of the path separator.
pub open spec fn is_component(s: Seq<char>) -> bool {
    &&& s.len() > 0
    &&& free_of(s, '|')
    &&& free_of(s, '+')
    &&& free_of(s, '/')
}

/// What decides which bits a build produces.
#[derive(Debug)]
pub struct Identity {
    pub service: ServiceId,
    /// The full commit that the requested refspec resolved to.
    pub commit: String,
    /// A digest of the worktree's contents; present exactly when the build
    /// starts from a worktree with uncommitted changes.
    pub worktree_hash: Option<String>,
    pub platform: String,
    pub schema: u32,
}

/// The mathematical value of an [`Identity`].
pub struct IdentityView {
    pub service: Seq<char>,
    pub commit: Seq<char>,
    pub worktree_hash: Option<Seq<char>>,
    pub platform: Seq<char>,
    pub schema: u32,
}

impl View for Identity {
    type V = IdentityView;

    open spec fn view(&self) -> IdentityView {
        IdentityView {
            service: self.service@,
            commit: self.commit@,
            worktree_hash: self.worktree_hash.deep_view(),
            platform: self.platform@,
            schema: self.schema,
        }
    }
}

impl IdentityView {
    /// Every component can stand in a key.
    pub open spec fn wf(self) -> bool {
        &&& is_component(self.service)
        &&& is_component(self.commit)
        &&& is_component(self.platform)
        &&& match self.worktree_hash {
            Some(h) => is_component(h),
            None => true,
        }
    }

    /// Whether the build starts from a worktree with uncommitted changes.
    pub open spec fn dirty(self) -> bool {
        self.worktree_hash is Some
    }

    /// The commit, followed by `+` and the worktree hash where there is one.
    pub open spec fn commit_segment(self) -> Seq<char> {
        match self.worktree_hash {
            Some(h) => self.commit.push('+') + h,
            None => self.commit,
        }
    }

    /// The schema version as it stands in a key: `v` and the number.
    pub open spec fn schema_segment(self) -> Seq<char> {
        seq!['v'] + decimal(self.schema as nat)
    }

    /// The cache key of this identity.
    pub open spec fn key(self) -> Seq<char> {
        self.service.push('|') + (self.commit_segment().push('|') + (self.platform.push('|')
            + self.schema_segment()))
    }
}

/// The first component of an identity that cannot stand in a key, by name.
pub open spec fn first_defect(id: IdentityView) -> Option<Seq<char>> {
    if !is_component(id.service) {
        Some("service name is empty or holds one of | + /"@)
    } else if !is_component(id.commit) {
        Some("commit is empty or holds one of | + /"@)
    } else if id.worktree_hash is Some && !is_component(id.worktree_hash->0) {
        Some("worktree hash is empty or holds one of | + /"@)
    } else if !is_component(id.platform) {
        Some("platform is empty or holds one of | + /"@)
    } else {
        None
    }
}

/// Whether `s` can stand as one component of a key.
pub fn is_key_component(s: &str) -> (ok: bool)
    ensures
        ok == is_component(s@),
{
    s.unicode_len() > 0 && !holds_char(s, '|') && !holds_char(s, '+') && !holds_char(s, '/')
}

impl Identity {
    /// The identity made of the given components, or the reason why they
    /// cannot make one.
    pub fn new(
        service: ServiceId,
        commit: String,
        worktree_hash: Option<String>,
        platform: String,
        schema: u32,
    ) -> (res: Result<Identity, InputError>)
        ensures
            match res {
                Ok(id) => {
                    &&& id@.wf()
                    &&& id@ == (IdentityView {
                        service: service@,
                        commit: commit@,
                        worktree_hash: worktree_hash.deep_view(),
                        platform: platform@,
                        schema,
                    })
                },
                Err(e) => {
                    let id = IdentityView {
                        service: service@,
                        commit: commit@,
                        worktree_hash: worktree_hash.deep_view(),
                        platform: platform@,
                        schema,
                    };
                    &&& first_defect(id) is Some
                    &&& e@ == (InputErrorView::InvalidSource {
                        service: service@,
                        reason: first_defect(id)->0,
                    })
                },
            },
            res is Ok <==> (IdentityView {
                service: service@,
                commit: commit@,
                worktree_hash: worktree_hash.deep_view(),
                platform: platform@,
                schema,
            }).wf(),
    {
        if !is_key_component(service.as_str()) {
            return Err(
                InputError::InvalidSource {
                    service,
                    reason: String::from_str("service name is empty or holds one of | + /"),
                },
            );
        }
        if !is_key_component(commit.as_str()) {
            return Err(
                InputError::InvalidSource {
                    service,
                    reason: String::from_str("commit is empty or holds one of | + /"),
                },
            );
        }
        let hash_ok = match &worktree_hash {
            Some(h) => is_key_component(h.as_str()),
            None => true,
        };
        if !hash_ok {
            return Err(
                InputError::InvalidSource {
                    service,
                    reason: String::from_str("worktree hash is empty or holds one of | + /"),
                },
            );
        }
        if !is_key_component(platform.as_str()) {
            return Err(
                InputError::InvalidSource {
                    service,
                    reason: String::from_str("platform is empty or holds one of | + /"),
                },
            );
        }
        Ok(Identity { service, commit, worktree_hash, platform, schema })
    }

    /// Whether the build starts from a worktree with uncommitted changes.
    pub fn is_dirty(&self) -> (dirty: bool)
        ensures
            dirty == self@.dirty(),
    {
        self.worktree_hash.is_some()
    }
}

/// Derives the cache key of an identity.
pub fn build_key(id: &Identity) -> (key: String)
    ensures
        key@ == id@.key(),
{
    let mut key = id.service.name();
    key.append("|");
    key.append(id.commit.as_str());
    match &id.worktree_hash {
        Some(h) => {
            key.append("+");
            key.append(h.as_str());
        },
        None => {},
    }
    key.append("|");
    key.append(id.platform.as_str());
    key.append("|v");
    let digits = decimal_string(id.schema as u64);
    key.append(digits.as_str());
    proof {
        reveal_strlit("|");
        reveal_strlit("+");
        reveal_strlit("|v");
        assert("|"@ =~= seq!['|']);
        assert("+"@ =~= seq!['+']);
        assert("|v"@ =~= seq!['|', 'v']);
        assert(key@ =~= id@.key());
    }
    key
}

/// A key is free of the path separator, and not empty.
pub proof fn lemma_key_is_name(id: IdentityView)
    requires
        id.wf(),
    ensures
        id.key().len() > 0,
        free_of(id.key(), '/'),
{
    lemma_decimal_digits(id.schema as nat);
    let seg = id.commit_segment();
    assert(free_of(seg, '/'));
    let k = id.key();
    let a = id.service.push('|');
    let b = seg.push('|');
    let c = id.platform.push('|');
    let d = id.schema_segment();
    assert(k == a + (b + (c + d)));
    assert forall|i: int| 0 <= i < d.len() implies d[i] != '/' by {
        if i > 0 {
            assert(d[i] == decimal(id.schema as nat)[i - 1]);
            assert(is_digit(decimal(id.schema as nat)[i - 1]));
        }
    }
    assert(free_of(a, '/'));
    assert(free_of(b, '/'));
    assert(free_of(c, '/'));
    assert(free_of(d, '/'));
}

/// Equal identities have equal keys: a key depends on nothing but the
/// identity it is derived from.
pub proof fn law_key_deterministic(a: Identity, b: Identity)
    requires
        a@ == b@,
    ensures
        a@.key() == b@.key(),
{
}

/// Identities with equal keys are equal: a change of the service, the
/// commit, the presence or the value of the worktree hash, the platform or
/// the schema version changes the key.
pub proof fn law_key_discriminates(a: IdentityView, b: IdentityView)
    requires
        a.wf(),
        b.wf(),
        a.key() == b.key(),
    ensures
        a == b,
{
    let a1 = a.commit_segment().push('|') + (a.platform.push('|') + a.schema_segment());
    let b1 = b.commit_segment().push('|') + (b.platform.push('|') + b.schema_segment());
    lemma_split_unique(a.service, a1, b.service, b1, '|');
    let a2 = a.platform.push('|') + a.schema_segment();
    let b2 = b.platform.push('|') + b.schema_segment();
    assert(free_of(a.commit_segment(), '|'));
    assert(free_of(b.commit_segment(), '|'));
    lemma_split_unique(a.commit_segment(), a2, b.commit_segment(), b2, '|');
    lemma_split_unique(a.platform, a.schema_segment(), b.platform, b.schema_segment(), '|');
    let da = decimal(a.schema as nat);
    let db = decimal(b.schema as nat);
    assert(da =~= a.schema_segment().subrange(1, a.schema_segment().len() as int));
    assert(db =~= b.schema_segment().subrange(1, b.schema_segment().len() as int));
    lemma_decimal_injective(a.schema as nat, b.schema as nat);
    lemma_commit_segment_unique(a, b);
}

/// The commit and the worktree hash can be read back from their segment of
/// the key.
proof fn lemma_commit_segment_unique(a: IdentityView, b: IdentityView)
    requires
        a.wf(),
        b.wf(),
        a.commit_segment() == b.commit_segment(),
    ensures
        a.commit == b.commit,
        a.worktree_hash == b.worktree_hash,
{
    match (a.worktree_hash, b.worktree_hash) {
        (Some(ha), Some(hb)) => {
            lemma_split_unique(a.commit, ha, b.commit, hb, '+');
        },
        (Some(ha), None) => {
            assert(a.commit_segment()[a.commit.len() as int] == '+');
            assert(b.commit[a.commit.len() as int] == '+');
        },
        (None, Some(hb)) => {
            assert(b.commit_segment()[b.commit.len() as int] == '+');
            assert(a.commit[b.commit.len() as int] == '+');
        },
        (None, None) => {},
    }
}

} // verus!
