//! The vobe model: one software project.

use vstd::prelude::*;

use crate::model::error::{id_for_clock, VobeId};
use crate::model::git::GitInfo;
use crate::model::time::Timestamp;
use crate::text::str_eq;
use crate::text::copy_opt;

verus! {

/// Tag marking a vobe as archived (hidden from default listings).
pub const ARCHIVED_TAG: &'static str = "archived";

/// One software project.
#[derive(Clone, Debug, PartialEq, Eq)]
pub struct Vobe {
    /// Stable internal id.
    pub id: VobeId,
    /// Human label.
    pub name: String,
    /// Absolute path on disk.
    pub path: String,
    /// Git state, if the project is a repository.
    pub git: Option<GitInfo>,
    /// Primary framework.
    pub framework: Option<String>,
    /// Primary language.
    pub language: Option<String>,
    /// Primary package manager.
    pub package_manager: Option<String>,
    /// When the project was first seen.
    pub created_at: Timestamp,
    /// Last time the user opened it.
    pub last_opened: Option<Timestamp>,
    /// Last time its files changed.
    pub last_modified: Option<Timestamp>,
    /// Free-form tags.
    pub tags: Vec<String>,
    /// Free-form notes.
    pub notes: Option<String>,
    /// Pinned by the user.
    pub pinned: bool,
}

/// The texts of a list of tags.
pub open spec fn tag_views(tags: Seq<String>) -> Seq<Seq<char>> {
    tags.map_values(|t: String| t@)
}

/// `tags` with every occurrence of `t` removed, order kept.
pub open spec fn without(tags: Seq<Seq<char>>, t: Seq<char>) -> Seq<Seq<char>>
    decreases tags.len(),
{
    if tags.len() == 0 {
        tags
    } else if tags.last() == t {
        without(tags.drop_last(), t)
    } else {
        without(tags.drop_last(), t).push(tags.last())
    }
}

/// `without` leaves a list that lacks the tag unchanged.
pub proof fn lemma_without_absent(tags: Seq<Seq<char>>, t: Seq<char>)
    requires
        !tags.contains(t),
    ensures
        without(tags, t) == tags,
    decreases tags.len(),
{
    if tags.len() > 0 {
        assert(!tags.drop_last().contains(t)) by {
            if tags.drop_last().contains(t) {
                let k = choose|k: int| 0 <= k < tags.drop_last().len() && tags.drop_last()[k] == t;
                assert(tags[k] == t);
            }
        }
        lemma_without_absent(tags.drop_last(), t);
        assert(tags.last() != t) by {
            assert(tags[tags.len() - 1] == tags.last());
        }
        assert(tags.drop_last().push(tags.last()) =~= tags);
    }
}

/// The result of `without` never holds the tag.
pub proof fn lemma_without_lacks(tags: Seq<Seq<char>>, t: Seq<char>)
    ensures
        !without(tags, t).contains(t),
    decreases tags.len(),
{
    if tags.len() > 0 {
        lemma_without_lacks(tags.drop_last(), t);
        let w = without(tags.drop_last(), t);
        if tags.last() != t {
            assert(!w.push(tags.last()).contains(t)) by {
                if w.push(tags.last()).contains(t) {
                    let k = choose|k: int| 0 <= k < w.push(tags.last()).len() && w.push(tags.last())[k] == t;
                    if k < w.len() {
                        assert(w[k] == t);
                    }
                }
            }
        }
    }
}

impl Vobe {
    /// The tag `tag` is present.
    pub open spec fn spec_has_tag(&self, tag: Seq<char>) -> bool {
        tag_views(self.tags@).contains(tag)
    }

    /// A new vobe with the given id, name, path and creation time, and
    /// nothing else known.
    pub fn created(id: VobeId, name: &str, path: &str, now: Timestamp) -> (v: Vobe)
        ensures
            v.id == id,
            v.name@ == name@,
            v.path@ == path@,
            v.git is None,
            v.framework is None,
            v.language is None,
            v.package_manager is None,
            v.created_at == now,
            v.last_opened is None,
            v.last_modified is None,
            v.tags@.len() == 0,
            v.notes is None,
            !v.pinned,
    {
        Vobe {
            id,
            name: name.to_owned(),
            path: path.to_owned(),
            git: None,
            framework: None,
            language: None,
            package_manager: None,
            created_at: now,
            last_opened: None,
            last_modified: None,
            tags: Vec::new(),
            notes: None,
            pinned: false,
        }
    }

    /// A new vobe with a fresh id, created now (the id is that of its
    /// creation instant).
    pub fn new(name: &str, path: &str) -> (v: Vobe)
        ensures
            v.id.0@ == id_for_clock(v.created_at.nanos),
            v.name@ == name@,
            v.path@ == path@,
            v.git is None,
            v.framework is None,
            v.language is None,
            v.package_manager is None,
            v.last_opened is None,
            v.last_modified is None,
            v.tags@.len() == 0,
            v.notes is None,
            !v.pinned,
    {
        let now = Timestamp::now();
        Self::created(VobeId::from_clock(now), name, path, now)
    }

    /// Set the git state.
    pub fn with_git(self, git: GitInfo) -> (v: Vobe)
        ensures
            v == (Vobe { git: Some(git), ..self }),
    {
        Vobe { git: Some(git), ..self }
    }

    /// Set the language.
    pub fn with_language(self, language: &str) -> (v: Vobe)
        ensures
            v.language matches Some(l) && l@ == language@,
            v == (Vobe { language: v.language, ..self }),
    {
        Vobe { language: Some(language.to_owned()), ..self }
    }

    /// Set the framework.
    pub fn with_framework(self, framework: &str) -> (v: Vobe)
        ensures
            v.framework matches Some(f) && f@ == framework@,
            v == (Vobe { framework: v.framework, ..self }),
    {
        Vobe { framework: Some(framework.to_owned()), ..self }
    }

    /// Set the package manager.
    pub fn with_package_manager(self, pm: &str) -> (v: Vobe)
        ensures
            v.package_manager matches Some(p) && p@ == pm@,
            v == (Vobe { package_manager: v.package_manager, ..self }),
    {
        Vobe { package_manager: Some(pm.to_owned()), ..self }
    }

    /// Set the notes.
    pub fn with_notes(self, notes: &str) -> (v: Vobe)
        ensures
            v.notes matches Some(n) && n@ == notes@,
            v == (Vobe { notes: v.notes, ..self }),
    {
        Vobe { notes: Some(notes.to_owned()), ..self }
    }

    /// Whether the vobe has the tag.
    pub fn has_tag(&self, tag: &str) -> (r: bool)
        ensures
            r == self.spec_has_tag(tag@),
    {
        let mut i: usize = 0;
        while i < self.tags.len()
            invariant
                i <= self.tags.len(),
                forall|j: int| 0 <= j < i ==> self.tags@[j]@ != tag@,
            decreases self.tags.len() - i,
        {
            if str_eq(self.tags[i].as_str(), tag) {
                assert(tag_views(self.tags@)[i as int] == tag@);
                return true;
            }
            i = i + 1;
        }
        assert(!tag_views(self.tags@).contains(tag@)) by {
            if tag_views(self.tags@).contains(tag@) {
                let k = choose|k: int|
                    0 <= k < tag_views(self.tags@).len() && tag_views(self.tags@)[k] == tag@;
                assert(self.tags@[k]@ == tag@);
            }
        }
        false
    }

    /// Add a tag unless present. Returns whether it was added.
    pub fn add_tag(&mut self, tag: &str) -> (added: bool)
        ensures
            added == !old(self).spec_has_tag(tag@),
            added ==> tag_views(final(self).tags@) == tag_views(old(self).tags@).push(tag@),
            !added ==> final(self).tags@ == old(self).tags@,
            *final(self) == (Vobe { tags: final(self).tags, ..*old(self) }),
    {
        if self.has_tag(tag) {
            false
        } else {
            self.tags.push(tag.to_owned());
            assert(tag_views(self.tags@) =~= tag_views(old(self).tags@).push(tag@));
            true
        }
    }

    /// Remove every occurrence of a tag. Returns whether it was present.
    pub fn remove_tag(&mut self, tag: &str) -> (removed: bool)
        ensures
            removed == old(self).spec_has_tag(tag@),
            tag_views(final(self).tags@) == without(tag_views(old(self).tags@), tag@),
            *final(self) == (Vobe { tags: final(self).tags, ..*old(self) }),
    {
        let ghost before = tag_views(self.tags@);
        let present = self.has_tag(tag);
        let mut kept: Vec<String> = Vec::new();
        let mut i: usize = 0;
        while i < self.tags.len()
            invariant
                i <= self.tags.len(),
                before == tag_views(self.tags@),
                tag_views(kept@) == without(before.take(i as int), tag@),
            decreases self.tags.len() - i,
        {
            let ghost pre = before.take(i as int);
            assert(before.take(i + 1).drop_last() =~= pre);
            assert(before.take(i + 1).last() == self.tags@[i as int]@);
            if !str_eq(self.tags[i].as_str(), tag) {
                kept.push(self.tags[i].clone());
                assert(tag_views(kept@) =~= without(pre, tag@).push(self.tags@[i as int]@));
            }
            i = i + 1;
        }
        assert(before.take(self.tags.len() as int) =~= before);
        self.tags = kept;
        present
    }

    /// Whether the vobe carries the archived tag.
    pub fn is_archived(&self) -> (r: bool)
        ensures
            r == self.spec_has_tag(ARCHIVED_TAG@),
    {
        self.has_tag(ARCHIVED_TAG)
    }

    /// Uncommitted changes present.
    pub fn is_dirty(&self) -> (r: bool)
        ensures
            r == (self.git matches Some(g) && g.dirty),
    {
        match &self.git {
            Some(g) => g.dirty,
            None => false,
        }
    }

    /// Commits waiting to be pushed.
    pub fn has_unpushed(&self) -> (r: bool)
        ensures
            r == (self.git matches Some(g) && g.ahead > 0),
    {
        match &self.git {
            Some(g) => g.ahead > 0,
            None => false,
        }
    }

    /// Commits waiting to be pulled.
    pub fn has_unpulled(&self) -> (r: bool)
        ensures
            r == (self.git matches Some(g) && g.behind > 0),
    {
        match &self.git {
            Some(g) => g.behind > 0,
            None => false,
        }
    }

    /// Mark the vobe as opened at `ts`.
    pub fn touch_opened_at(&mut self, ts: Timestamp)
        ensures
            *final(self) == (Vobe { last_opened: Some(ts), ..*old(self) }),
    {
        self.last_opened = Some(ts);
    }

    /// Mark the vobe as modified at `ts`.
    pub fn touch_modified_at(&mut self, ts: Timestamp)
        ensures
            *final(self) == (Vobe { last_modified: Some(ts), ..*old(self) }),
    {
        self.last_modified = Some(ts);
    }

    /// Mark the vobe as opened now.
    pub fn touch_opened(&mut self)
        ensures
            final(self).last_opened is Some,
            *final(self) == (Vobe { last_opened: final(self).last_opened, ..*old(self) }),
    {
        self.touch_opened_at(Timestamp::now());
    }

    /// Mark the vobe as modified now.
    pub fn touch_modified(&mut self)
        ensures
            final(self).last_modified is Some,
            *final(self) == (Vobe { last_modified: final(self).last_modified, ..*old(self) }),
    {
        self.touch_modified_at(Timestamp::now());
    }
}

/// A copy of a list of strings.
pub fn copy_strings(v: &Vec<String>) -> (r: Vec<String>)
    ensures
        r@ == v@,
{
    let mut out: Vec<String> = Vec::new();
    let mut i: usize = 0;
    while i < v.len()
        invariant
            i <= v@.len(),
            out@ == v@.take(i as int),
        decreases v@.len() - i,
    {
        out.push(v[i].clone());
        i = i + 1;
        assert(out@ =~= v@.take(i as int));
    }
    assert(v@.take(v@.len() as int) =~= v@);
    out
}

impl Vobe {
    /// The same vobe: equal fields, tags equal as texts.
    pub open spec fn same_as(self, other: Vobe) -> bool {
        &&& self == (Vobe { tags: self.tags, ..other })
        &&& self.tags@ == other.tags@
    }

    /// A field-for-field copy.
    pub fn copied(&self) -> (v: Vobe)
        ensures
            v.same_as(*self),
    {
        let tags = copy_strings(&self.tags);
        let v = Vobe {
            id: VobeId(self.id.0.clone()),
            name: self.name.clone(),
            path: self.path.clone(),
            git: match &self.git {
                Some(g) => Some(g.copied()),
                None => None,
            },
            framework: copy_opt(&self.framework),
            language: copy_opt(&self.language),
            package_manager: copy_opt(&self.package_manager),
            created_at: self.created_at,
            last_opened: self.last_opened,
            last_modified: self.last_modified,
            tags,
            notes: copy_opt(&self.notes),
            pinned: self.pinned,
        };
        assert(v.tags@ == self.tags@);
        v
    }
}

impl Default for Vobe {
    /// An unnamed vobe with an empty path, created now.
    fn default() -> (v: Vobe)
        ensures
            v.name@.len() == 0,
            v.path@.len() == 0,
            v.id.0@ == id_for_clock(v.created_at.nanos),
            v.git is None,
            v.tags@.len() == 0,
    {
        proof {
            reveal_strlit("");
        }
        Vobe::new("", "")
    }
}

/// Adding a tag that was absent and then removing it gives back the tags
/// the vobe had.
pub proof fn law_add_then_remove_tag(before: Seq<Seq<char>>, tag: Seq<char>)
    requires
        !before.contains(tag),
    ensures
        without(before.push(tag), tag) == before,
{
    assert(before.push(tag).drop_last() =~= before);
    lemma_without_absent(before, tag);
}

/// After a tag is removed it is gone; after it is added it is there.
pub proof fn law_tag_presence(before: Seq<Seq<char>>, tag: Seq<char>)
    ensures
        !without(before, tag).contains(tag),
        before.push(tag).contains(tag),
{
    lemma_without_lacks(before, tag);
    assert(before.push(tag)[before.len() as int] == tag);
}

} // verus!
