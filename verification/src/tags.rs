//! The tags of a repository: their names, and the commits that they mark.
use crate::commit::hex_text;
use crate::commit::CommitId;
use crate::text::same_text;
use vstd::prelude::*;

verus! {

/// The names that are there, in order: one that is not UTF-8 has been read as `None`.
pub open spec fn present(names: Seq<Option<String>>) -> Seq<String>
    decreases names.len(),
{
    if names.len() == 0 {
        Seq::empty()
    } else {
        match names.last() {
            Some(name) => present(names.drop_last()).push(name),
            None => present(names.drop_last()),
        }
    }
}

/// The tags of a repository, given what the repository lists: the names that
/// are UTF-8, in the order of the list.
pub fn get_tags(names: &Vec<Option<String>>) -> (tags: Vec<String>)
    ensures
        tags@ == present(names@),
{
    let mut tags: Vec<String> = Vec::new();
    let mut i: usize = 0;
    while i < names.len()
        invariant
            i <= names.len(),
            tags@ == present(names@.take(i as int)),
        decreases names.len() - i,
    {
        proof {
            assert(names@.take(i + 1).drop_last() =~= names@.take(i as int));
        }
        if let Some(name) = &names[i] {
            tags.push(name.clone());
        }
        i = i + 1;
    }
    proof {
        assert(names@.take(names@.len() as int) =~= names@);
    }
    tags
}

/// A name is among the tags exactly when the repository lists it.
pub proof fn present_keeps_every_name(names: Seq<Option<String>>, name: String)
    ensures
        present(names).contains(name) <==> names.contains(Some(name)),
    decreases names.len(),
{
    if names.len() > 0 {
        let rest = names.drop_last();
        present_keeps_every_name(rest, name);
        assert(names =~= rest.push(names.last()));
        if present(names).contains(name) {
            let i = choose|i: int| 0 <= i < present(names).len() && present(names)[i] == name;
            if names.last() is Some && i == present(rest).len() {
                assert(names[names.len() - 1] == Some(name));
            } else {
                assert(present(rest)[i] == name);
                let j = choose|j: int| 0 <= j < rest.len() && rest[j] == Some(name);
                assert(names[j] == Some(name));
            }
        }
        if names.contains(Some(name)) {
            let j = choose|j: int| 0 <= j < names.len() && names[j] == Some(name);
            if j == names.len() - 1 {
                assert(present(names)[present(names).len() - 1] == name);
            } else {
                assert(rest[j] == Some(name));
                let i = choose|i: int| 0 <= i < present(rest).len() && present(rest)[i] == name;
                assert(present(names)[i] == name);
            }
        }
    }
}

/// What the repository holds for one of its tag references.
#[derive(Debug)]
pub enum TagRef {
    /// No tag object could be read for the reference.
    Unreadable,
    /// A tag object.
    Object {
        /// The name, unless it is not UTF-8.
        name: Option<String>,
        /// The commit that the tag points at, unless it points at something else.
        commit: Option<CommitId>,
    },
}

/// Why no commit was found for a tag.
#[derive(Debug, Clone, Copy, PartialEq, Eq, Structural)]
pub enum TagError {
    /// No tag object has the name.
    NoCommit,
}

impl TagError {
    /// The message of the error.
    pub fn message(&self) -> (text: &'static str)
        ensures
            text@ == "No commit associated with tag"@,
    {
        "No commit associated with tag"
    }
}

/// Whether `tag` is a tag object called `tag_name`. A name that is not UTF-8 counts as empty.
pub open spec fn is_called(tag: TagRef, tag_name: Seq<char>) -> bool {
    match tag {
        TagRef::Unreadable => false,
        TagRef::Object { name: Some(name), .. } => name@ == tag_name,
        TagRef::Object { name: None, .. } => tag_name.len() == 0,
    }
}

/// Every tag object called `tag_name` points at a commit.
pub open spec fn all_resolve(tags: Seq<TagRef>, tag_name: Seq<char>) -> bool {
    forall|i: int|
        0 <= i < tags.len() && is_called(#[trigger] tags[i], tag_name) ==> tags[i]->commit is Some
}

/// `i` is the last tag object called `tag_name`.
pub open spec fn is_last_called(tags: Seq<TagRef>, tag_name: Seq<char>, i: int) -> bool {
    &&& 0 <= i < tags.len()
    &&& is_called(tags[i], tag_name)
    &&& forall|j: int| i < j < tags.len() ==> !is_called(#[trigger] tags[j], tag_name)
}

/// The commit that is marked by the tag called `tag_name`: the last one decides.
pub open spec fn marked_commit(tags: Seq<TagRef>, tag_name: Seq<char>) -> Option<CommitId>
    decreases tags.len(),
{
    if tags.len() == 0 {
        None
    } else if is_called(tags.last(), tag_name) {
        tags.last()->commit
    } else {
        marked_commit(tags.drop_last(), tag_name)
    }
}

fn called(tag: &TagRef, tag_name: &str) -> (called: bool)
    ensures
        called == is_called(*tag, tag_name@),
{
    match tag {
        TagRef::Unreadable => false,
        TagRef::Object { name: Some(name), .. } => same_text(name.as_str(), tag_name),
        TagRef::Object { name: None, .. } => tag_name.is_empty(),
    }
}

/// Whether every tag object called `tag_name` points at a commit.
pub fn tag_resolves(tags: &Vec<TagRef>, tag_name: &str) -> (resolves: bool)
    ensures
        resolves == all_resolve(tags@, tag_name@),
{
    let mut i: usize = 0;
    while i < tags.len()
        invariant
            i <= tags.len(),
            forall|j: int|
                0 <= j < i && is_called(#[trigger] tags@[j], tag_name@) ==> tags@[j]->commit is Some,
        decreases tags.len() - i,
    {
        if called(&tags[i], tag_name) {
            if let TagRef::Object { commit: None, .. } = &tags[i] {
                return false;
            }
        }
        i = i + 1;
    }
    true
}

/// The commit marked by the tag called `tag_name`, in hexadecimal form, where
/// `tags` are the tag references of the repository in the order in which it
/// walks them. Of several tag objects with the name the last one decides.
pub fn get_tag_commit(tags: &Vec<TagRef>, tag_name: &str) -> (commit: Result<String, TagError>)
    requires
        all_resolve(tags@, tag_name@),
    ensures
        commit is Err <==> forall|i: int|
            0 <= i < tags@.len() ==> !is_called(#[trigger] tags@[i], tag_name@),
        commit matches Err(e) ==> e == TagError::NoCommit,
        commit is Ok <==> marked_commit(tags@, tag_name@) is Some,
        commit matches Ok(text) ==> text@ == hex_text(
            marked_commit(tags@, tag_name@)->Some_0.bytes@,
        ),
        commit matches Ok(text) ==> exists|i: int| #[trigger]
            is_last_called(tags@, tag_name@, i) && text@ == hex_text(
                tags@[i]->commit->Some_0.bytes@,
            ),
{
    let mut found: Option<CommitId> = None;
    let ghost mut last: int = 0;
    let mut i: usize = 0;
    while i < tags.len()
        invariant
            i <= tags.len(),
            all_resolve(tags@, tag_name@),
            found == marked_commit(tags@.take(i as int), tag_name@),
            found is None ==> forall|j: int| 0 <= j < i ==> !is_called(#[trigger] tags@[j], tag_name@),
            found matches Some(id) ==> {
                &&& is_last_called(tags@.take(i as int), tag_name@, last)
                &&& tags@[last]->commit == Some(id)
            },
        decreases tags.len() - i,
    {
        proof {
            assert(tags@.take(i + 1).drop_last() =~= tags@.take(i as int));
        }
        if called(&tags[i], tag_name) {
            if let TagRef::Object { commit, .. } = &tags[i] {
                found = *commit;
                proof {
                    last = i as int;
                }
            }
        }
        i = i + 1;
    }
    assert(tags@.take(tags@.len() as int) =~= tags@);
    match found {
        Some(id) => {
            assert(is_last_called(tags@, tag_name@, last));
            Ok(id.to_hex())
        },
        None => Err(TagError::NoCommit),
    }
}

/// The tags of two lists, one after the other, are those of the first and then
/// those of the second.
pub proof fn tags_of_two_lists(first: Seq<Option<String>>, second: Seq<Option<String>>)
    ensures
        present(first + second) == present(first) + present(second),
    decreases second.len(),
{
    if second.len() == 0 {
        assert(first + second =~= first);
        assert(present(first) + present(second) =~= present(first));
    } else {
        tags_of_two_lists(first, second.drop_last());
        assert((first + second).drop_last() =~= first + second.drop_last());
        assert((first + second).last() == second.last());
        assert(present(first + second) =~= present(first) + present(second));
    }
}

/// A name that is there is a tag, and one that is not is none.
pub proof fn listed_name_is_a_tag(name: String)
    ensures
        present(seq![Some(name)]) == seq![name],
        present(seq![None::<String>]) == Seq::<String>::empty(),
        present(Seq::<Option<String>>::empty()) == Seq::<String>::empty(),
{
    reveal_with_fuel(present, 2);
    assert(seq![Some(name)].drop_last() =~= Seq::<Option<String>>::empty());
    assert(seq![None::<String>].drop_last() =~= Seq::<Option<String>>::empty());
    assert(present(seq![Some(name)]) =~= seq![name]);
}

/// A tag object is called by its whole name and by no other text; one whose
/// name cannot be read is called by the empty text; and what cannot be read at
/// all is not called anything.
pub proof fn tag_has_one_name(name: String, commit: Option<CommitId>, text: Seq<char>)
    ensures
        is_called(TagRef::Object { name: Some(name), commit }, text) <==> text == name@,
        is_called(TagRef::Object { name: None, commit }, text) <==> text == Seq::<char>::empty(),
        !is_called(TagRef::Unreadable, text),
{
    if text.len() == 0 {
        assert(text =~= Seq::<char>::empty());
    }
}

proof fn other_tag_changes_nothing(
    before: Seq<TagRef>,
    tag: TagRef,
    after: Seq<TagRef>,
    asked: Seq<char>,
)
    requires
        !is_called(tag, asked),
    ensures
        marked_commit(before + seq![tag] + after, asked) == marked_commit(before + after, asked),
    decreases after.len(),
{
    let with = before + seq![tag] + after;
    if after.len() == 0 {
        assert(with.last() == tag);
        assert(with.drop_last() =~= before);
        assert(before + after =~= before);
    } else {
        other_tag_changes_nothing(before, tag, after.drop_last(), asked);
        assert(with.drop_last() =~= before + seq![tag] + after.drop_last());
        assert((before + after).drop_last() =~= before + after.drop_last());
        assert(with.last() == after.last() && (before + after).last() == after.last());
    }
}

/// A tag object with another name, wherever in the list it stands, changes
/// nothing in the commit that is found for a name, nor does a reference that
/// cannot be read.
pub proof fn tag_of_another_name_does_not_count(
    before: Seq<TagRef>,
    name: String,
    commit: Option<CommitId>,
    after: Seq<TagRef>,
    asked: Seq<char>,
)
    requires
        name@ != asked,
    ensures
        marked_commit(
            before + seq![TagRef::Object { name: Some(name), commit }] + after,
            asked,
        ) == marked_commit(before + after, asked),
        marked_commit(before + seq![TagRef::Unreadable] + after, asked) == marked_commit(
            before + after,
            asked,
        ),
        asked.len() > 0 ==> marked_commit(
            before + seq![TagRef::Object { name: None, commit }] + after,
            asked,
        ) == marked_commit(before + after, asked),
{
    other_tag_changes_nothing(
        before,
        TagRef::Object { name: Some(name), commit },
        after,
        asked,
    );
    other_tag_changes_nothing(before, TagRef::Unreadable, after, asked);
    if asked.len() > 0 {
        other_tag_changes_nothing(before, TagRef::Object { name: None, commit }, after, asked);
    }
}

/// The commit that is found for a name is the one of the tag object with exactly
/// that name behind which no other object has it. In a list of different names
/// that is the only object with the name.
pub proof fn tag_of_the_name_decides(
    before: Seq<TagRef>,
    name: String,
    commit: Option<CommitId>,
    after: Seq<TagRef>,
)
    requires
        forall|k: int|
            0 <= k < after.len() ==> match #[trigger] after[k] {
                TagRef::Unreadable => true,
                TagRef::Object { name: Some(other), .. } => other@ != name@,
                TagRef::Object { name: None, .. } => name@.len() > 0,
            },
    ensures
        marked_commit(before + seq![TagRef::Object { name: Some(name), commit }] + after, name@)
            == commit,
    decreases after.len(),
{
    let tag = TagRef::Object { name: Some(name), commit };
    let with = before + seq![tag] + after;
    if after.len() == 0 {
        assert(with.last() == tag);
    } else {
        assert(with.last() == after[after.len() - 1]);
        assert(with.drop_last() =~= before + seq![tag] + after.drop_last());
        assert forall|k: int| 0 <= k < after.drop_last().len() implies match #[trigger] after.drop_last()[k] {
            TagRef::Unreadable => true,
            TagRef::Object { name: Some(other), .. } => other@ != name@,
            TagRef::Object { name: None, .. } => name@.len() > 0,
        } by {
            assert(after.drop_last()[k] == after[k]);
        }
        tag_of_the_name_decides(before, name, commit, after.drop_last());
    }
}

/// No commit is found for a name that no tag object has.
pub proof fn name_without_tag_has_no_commit(tags: Seq<TagRef>, asked: Seq<char>)
    requires
        forall|k: int|
            0 <= k < tags.len() ==> match #[trigger] tags[k] {
                TagRef::Unreadable => true,
                TagRef::Object { name: Some(other), .. } => other@ != asked,
                TagRef::Object { name: None, .. } => asked.len() > 0,
            },
    ensures
        marked_commit(tags, asked) is None,
        all_resolve(tags, asked),
    decreases tags.len(),
{
    if tags.len() > 0 {
        assert forall|k: int| 0 <= k < tags.drop_last().len() implies match #[trigger] tags.drop_last()[k] {
            TagRef::Unreadable => true,
            TagRef::Object { name: Some(other), .. } => other@ != asked,
            TagRef::Object { name: None, .. } => asked.len() > 0,
        } by {
            assert(tags.drop_last()[k] == tags[k]);
        }
        name_without_tag_has_no_commit(tags.drop_last(), asked);
        assert(tags.last() == tags[tags.len() - 1]);
    }
}

/// A name resolves as long as no tag object with that name points at anything
/// but a commit.
pub proof fn name_resolves_unless_its_tag_marks_no_commit(
    tags: Seq<TagRef>,
    name: String,
    commit: Option<CommitId>,
    asked: Seq<char>,
)
    ensures
        all_resolve(tags.push(TagRef::Object { name: Some(name), commit }), asked) <==> all_resolve(
            tags,
            asked,
        ) && (name@ == asked ==> commit is Some),
        all_resolve(tags.push(TagRef::Unreadable), asked) <==> all_resolve(tags, asked),
        all_resolve(tags.push(TagRef::Object { name: None, commit }), asked) <==> all_resolve(
            tags,
            asked,
        ) && (asked.len() == 0 ==> commit is Some),
        all_resolve(Seq::<TagRef>::empty(), asked),
{
    let tag = TagRef::Object { name: Some(name), commit };
    let more = tags.push(tag);
    let unread = tags.push(TagRef::Unreadable);
    assert(more[tags.len() as int] == tag);
    assert(unread[tags.len() as int] == TagRef::Unreadable);
    assert forall|k: int| 0 <= k < tags.len() implies #[trigger] more[k] == tags[k] by {}
    assert forall|k: int| 0 <= k < tags.len() implies #[trigger] unread[k] == tags[k] by {}
    if all_resolve(more, asked) {
        assert forall|k: int| 0 <= k < tags.len() && is_called(#[trigger] tags[k], asked) implies tags[k]->commit is Some by {
            assert(more[k] == tags[k]);
        }
    }
    let nameless = tags.push(TagRef::Object { name: None, commit });
    assert(nameless[tags.len() as int] == (TagRef::Object { name: None, commit }));
    assert forall|k: int| 0 <= k < tags.len() implies #[trigger] nameless[k] == tags[k] by {}
    if all_resolve(nameless, asked) {
        assert forall|k: int| 0 <= k < tags.len() && is_called(#[trigger] tags[k], asked) implies tags[k]->commit is Some by {
            assert(nameless[k] == tags[k]);
        }
    }
    if all_resolve(unread, asked) {
        assert forall|k: int| 0 <= k < tags.len() && is_called(#[trigger] tags[k], asked) implies tags[k]->commit is Some by {
            assert(unread[k] == tags[k]);
        }
    }
}

} // verus!
