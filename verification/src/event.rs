//! Change events: what the watch back-end observed under the watched root.

use vstd::prelude::*;
use vstd::string::*;

verus! {

/// What happened to the affected paths.
#[derive(Clone, Copy, Debug, PartialEq, Eq, Structural)]
pub enum ChangeKind {
    Create,
    Modify,
    Remove,
    Other,
}

/// One observation of the watch back-end: a kind and the paths it affects,
/// in the order in which the back-end gave them.
#[derive(Debug, PartialEq, Eq)]
pub struct ChangeEvent {
    pub kind: ChangeKind,
    pub affected_paths: Vec<String>,
}

/// The mathematical content of a [`ChangeEvent`].
pub ghost struct Change {
    pub kind: ChangeKind,
    pub paths: Seq<Seq<char>>,
}

/// The characters of each string of a sequence.
pub open spec fn texts(strings: Seq<String>) -> Seq<Seq<char>> {
    strings.map_values(|s: String| s@)
}

impl View for ChangeEvent {
    type V = Change;

    open spec fn view(&self) -> Change {
        Change { kind: self.kind, paths: texts(self.affected_paths@) }
    }
}

/// The word that names a kind in a log line.
pub open spec fn kind_text(kind: ChangeKind) -> Seq<char> {
    match kind {
        ChangeKind::Create => "create"@,
        ChangeKind::Modify => "modify"@,
        ChangeKind::Remove => "remove"@,
        ChangeKind::Other => "other"@,
    }
}

/// The parts one after the other, with `", "` between neighbours.
pub open spec fn listed(parts: Seq<Seq<char>>) -> Seq<char>
    decreases parts.len(),
{
    if parts.len() == 0 {
        Seq::empty()
    } else if parts.len() == 1 {
        parts[0]
    } else {
        listed(parts.drop_last()) + ", "@ + parts.last()
    }
}

/// The message of the log line for a change: its kind, then its paths in
/// order between square brackets.
pub open spec fn change_text(change: Change) -> Seq<char> {
    "event: "@ + kind_text(change.kind) + " ["@ + listed(change.paths) + "]"@
}

impl ChangeKind {
    /// The word that names this kind in a log line.
    pub fn name(&self) -> (s: &'static str)
        ensures
            s@ == kind_text(*self),
    {
        match self {
            ChangeKind::Create => "create",
            ChangeKind::Modify => "modify",
            ChangeKind::Remove => "remove",
            ChangeKind::Other => "other",
        }
    }
}

impl ChangeEvent {
    /// The event of the given kind on the given paths.
    pub fn new(kind: ChangeKind, affected_paths: Vec<String>) -> (e: ChangeEvent)
        ensures
            e@ == (Change { kind, paths: texts(affected_paths@) }),
    {
        ChangeEvent { kind, affected_paths }
    }

    /// The message of the log line for this event.
    pub fn message(&self) -> (m: String)
        ensures
            m@ == change_text(self@),
    {
        let mut m = String::from_str("event: ");
        m.append(self.kind.name());
        m.append(" [");
        let ghost head = m@;
        let ghost paths = texts(self.affected_paths@);
        let mut i: usize = 0;
        while i < self.affected_paths.len()
            invariant
                i <= self.affected_paths.len(),
                paths == texts(self.affected_paths@),
                m@ == head + listed(paths.take(i as int)),
            decreases self.affected_paths.len() - i,
        {
            if i > 0 {
                m.append(", ");
            }
            m.append(self.affected_paths[i].as_str());
            proof {
                let before = paths.take(i as int);
                let now = paths.take(i + 1);
                assert(now.drop_last() =~= before);
                assert(now.last() == self.affected_paths@[i as int]@);
                if i == 0 {
                    assert(listed(before) =~= Seq::<char>::empty());
                    assert(now[0] == now.last());
                }
                assert(m@ =~= head + listed(now));
            }
            i += 1;
        }
        m.append("]");
        proof {
            assert(paths.take(i as int) =~= paths);
            assert(m@ =~= change_text(self@));
        }
        m
    }
}

/// Whether `part` stands in `text` from position `at` on.
pub open spec fn occurs_at(text: Seq<char>, part: Seq<char>, at: int) -> bool {
    &&& 0 <= at
    &&& at + part.len() <= text.len()
    &&& text.subrange(at, at + part.len()) == part
}

/// Each part stands somewhere in the list of the parts.
pub proof fn lemma_listed_holds_each_part(parts: Seq<Seq<char>>, i: int) -> (at: int)
    requires
        0 <= i < parts.len(),
    ensures
        occurs_at(listed(parts), parts[i], at),
    decreases parts.len(),
{
    let whole = listed(parts);
    if parts.len() == 1 {
        assert(whole.subrange(0, parts[0].len() as int) =~= parts[0]);
        0
    } else if i == parts.len() - 1 {
        let at = (listed(parts.drop_last()) + ", "@).len() as int;
        assert(whole.subrange(at, at + parts[i].len()) =~= parts[i]);
        at
    } else {
        let at = lemma_listed_holds_each_part(parts.drop_last(), i);
        let before = listed(parts.drop_last());
        assert(parts.drop_last()[i] == parts[i]);
        assert(whole.subrange(at, at + parts[i].len()) =~= before.subrange(
            at,
            at + parts[i].len(),
        ));
        at
    }
}

/// The message of a change names each of its paths.
pub proof fn lemma_message_names_each_path(change: Change, i: int) -> (at: int)
    requires
        0 <= i < change.paths.len(),
    ensures
        occurs_at(change_text(change), change.paths[i], at),
{
    let inner = lemma_listed_holds_each_part(change.paths, i);
    let head = "event: "@ + kind_text(change.kind) + " ["@;
    let at = head.len() + inner;
    let path = change.paths[i];
    assert(change_text(change).subrange(at, at + path.len()) =~= listed(change.paths).subrange(
        inner,
        inner + path.len(),
    ));
    at
}

} // verus!
