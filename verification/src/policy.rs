//! The tool policy: which tool a client may call, and which it sees, under the
//! scopes of its token. What the table does not list is refused.

use vstd::prelude::*;

use crate::names::NameSet;
use crate::service::{
    law_scopes_are_distinct, law_tools_are_distinct, Service, ServiceModel, OUTILS_ECRITURE,
    OUTILS_LECTURE,
};
use crate::text::same_text;

verus! {

/// What a tool does, as far as access goes.
#[derive(Clone, Copy, Debug, PartialEq, Eq, Structural)]
pub enum ToolClass {
    /// Reads only.
    Read,
    /// Changes something, or spends something.
    Write,
    /// Not in the table.
    Unknown,
}

/// A policy as a value: the scope that opens the tools that read, the one that
/// opens all tools, and the class of each tool.
pub struct PolicyModel {
    pub read_scope: Seq<char>,
    pub write_scope: Seq<char>,
    pub table: Map<Seq<char>, ToolClass>,
}

impl PolicyModel {
    /// The class of the tool `name`.
    pub open spec fn class_of(self, name: Seq<char>) -> ToolClass {
        if self.table.contains_key(name) {
            self.table[name]
        } else {
            ToolClass::Unknown
        }
    }

    /// Whether the scopes `scopes` open the tools of class `class`. The write scope
    /// opens the tools that read as well.
    pub open spec fn opens(self, class: ToolClass, scopes: Set<Seq<char>>) -> bool {
        match class {
            ToolClass::Read => scopes.contains(self.read_scope) || scopes.contains(
                self.write_scope,
            ),
            ToolClass::Write => scopes.contains(self.write_scope),
            ToolClass::Unknown => false,
        }
    }

    /// Whether a client with the scopes `scopes` may call the tool `name`.
    pub open spec fn allows(self, name: Seq<char>, scopes: Set<Seq<char>>) -> bool {
        self.opens(self.class_of(name), scopes)
    }

    /// Why a call of the tool `name` is refused, where it is: the scope that is wanting,
    /// or the name of the tool where the table does not list it. The wording is the
    /// library's own; nothing outside depends on more of it than the scope.
    pub open spec fn refusal(self, name: Seq<char>) -> Seq<char> {
        match self.class_of(name) {
            ToolClass::Read => "portee requise : "@ + self.read_scope,
            ToolClass::Write => "portee requise : "@ + self.write_scope,
            ToolClass::Unknown => "outil inconnu (fail-closed) : "@ + name,
        }
    }

    /// The tools of the table that the scopes `scopes` open.
    pub open spec fn visible(self, scopes: Set<Seq<char>>) -> Set<Seq<char>> {
        Set::new(|name: Seq<char>| self.table.contains_key(name) && self.allows(name, scopes))
    }
}

/// The table that a list of entries writes; of two entries for one tool the later
/// one counts.
pub open spec fn table_of(entries: Seq<(Seq<char>, ToolClass)>) -> Map<Seq<char>, ToolClass>
    decreases entries.len(),
{
    if entries.len() == 0 {
        Map::empty()
    } else {
        table_of(entries.drop_last()).insert(entries.last().0, entries.last().1)
    }
}

/// A list of entries, each name taken as its characters.
pub open spec fn entries_view(entries: Seq<(String, ToolClass)>) -> Seq<(Seq<char>, ToolClass)> {
    entries.map_values(|e: (String, ToolClass)| (e.0@, e.1))
}

proof fn lemma_table_of(entries: Seq<(Seq<char>, ToolClass)>, name: Seq<char>)
    ensures
        table_of(entries).contains_key(name) <==> exists|i: int|
            0 <= i < entries.len() && #[trigger] entries[i].0 == name,
    decreases entries.len(),
{
    if entries.len() > 0 {
        let rest = entries.drop_last();
        lemma_table_of(rest, name);
        if table_of(rest).contains_key(name) {
            let i = choose|i: int| 0 <= i < rest.len() && #[trigger] rest[i].0 == name;
            assert(entries[i].0 == name);
        }
        if exists|i: int| 0 <= i < entries.len() && #[trigger] entries[i].0 == name {
            let i = choose|i: int| 0 <= i < entries.len() && #[trigger] entries[i].0 == name;
            if i < rest.len() {
                assert(rest[i].0 == name);
            }
        }
    }
}

/// A policy that is given by a table of tools.
pub struct TablePolicy {
    read_scope: String,
    write_scope: String,
    entries: Vec<(String, ToolClass)>,
}

impl View for TablePolicy {
    type V = PolicyModel;

    closed spec fn view(&self) -> PolicyModel {
        PolicyModel {
            read_scope: self.read_scope@,
            write_scope: self.write_scope@,
            table: table_of(entries_view(self.entries@)),
        }
    }
}

impl TablePolicy {
    /// The policy with the given scopes and table.
    pub fn new(read_scope: &str, write_scope: &str, entries: Vec<(String, ToolClass)>) -> (r:
        TablePolicy)
        ensures
            r@ == (PolicyModel {
                read_scope: read_scope@,
                write_scope: write_scope@,
                table: table_of(entries_view(entries@)),
            }),
    {
        TablePolicy {
            read_scope: read_scope.to_string(),
            write_scope: write_scope.to_string(),
            entries,
        }
    }

    /// The class of the tool `name`.
    pub fn classify(&self, name: &str) -> (r: ToolClass)
        ensures
            r == self@.class_of(name@),
            self@.table.contains_key(name@) ==> r == self@.table[name@],
            !self@.table.contains_key(name@) ==> r is Unknown,
    {
        let ghost all = entries_view(self.entries@);
        let mut n: usize = self.entries.len();
        assert(all.take(n as int) =~= all);
        while n > 0
            invariant
                all == entries_view(self.entries@),
                n <= self.entries.len(),
                self@.table == table_of(all),
                table_of(all).contains_key(name@) <==> table_of(all.take(n as int)).contains_key(
                    name@,
                ),
                table_of(all).contains_key(name@) ==> table_of(all)[name@] == table_of(
                    all.take(n as int),
                )[name@],
            decreases n,
        {
            let entry = &self.entries[n - 1];
            assert(all[n - 1] == (entry.0@, entry.1));
            assert(all.take(n as int).drop_last() =~= all.take(n - 1));
            assert(all.take(n as int).last() == all[n - 1]);
            if same_text(entry.0.as_str(), name) {
                return entry.1;
            }
            n = n - 1;
        }
        ToolClass::Unknown
    }

    /// Whether the scopes `scopes` open the tools of class `class`.
    fn opens(&self, class: ToolClass, scopes: &NameSet) -> (r: bool)
        ensures
            r == self@.opens(class, scopes@),
    {
        match class {
            ToolClass::Read => scopes.contains(self.read_scope.as_str()) || scopes.contains(
                self.write_scope.as_str(),
            ),
            ToolClass::Write => scopes.contains(self.write_scope.as_str()),
            ToolClass::Unknown => false,
        }
    }

    /// Decides on a call of the tool `name` under the scopes `scopes`: `None` where
    /// it is allowed, else the reason why it is not.
    pub fn autoriser_call(&self, name: &str, scopes: &NameSet) -> (r: Option<String>)
        ensures
            r is None <==> self@.allows(name@, scopes@),
            r matches Some(reason) ==> reason@ == self@.refusal(name@),
    {
        let class = self.classify(name);
        if self.opens(class, scopes) {
            return None;
        }
        Some(
            match class {
                ToolClass::Read => "portee requise : ".to_string().concat(self.read_scope.as_str()),
                ToolClass::Write => "portee requise : ".to_string().concat(
                    self.write_scope.as_str(),
                ),
                ToolClass::Unknown => "outil inconnu (fail-closed) : ".to_string().concat(name),
            },
        )
    }

    /// The tools that a client with the scopes `scopes` sees.
    pub fn visibles(&self, scopes: &NameSet) -> (r: NameSet)
        ensures
            r@ == self@.visible(scopes@),
    {
        let ghost all = entries_view(self.entries@);
        let mut r = NameSet::new();
        for i in 0..self.entries.len()
            invariant
                all == entries_view(self.entries@),
                forall|name: Seq<char>| #[trigger]
                    r@.contains(name) <==> self@.allows(name, scopes@) && exists|j: int|
                        0 <= j < i && #[trigger] all[j].0 == name,
        {
            let name = self.entries[i].0.as_str();
            assert(all[i as int].0 == name@);
            let class = self.classify(name);
            let ghost before = r@;
            if self.opens(class, scopes) {
                r.insert(name);
            }
            proof {
                assert forall|other: Seq<char>| #[trigger] r@.contains(other) <==> self@.allows(
                    other,
                    scopes@,
                ) && exists|j: int| 0 <= j < i + 1 && #[trigger] all[j].0 == other by {
                    if self@.allows(other, scopes@) && exists|j: int|
                        0 <= j < i + 1 && #[trigger] all[j].0 == other {
                        let j = choose|j: int| 0 <= j < i + 1 && #[trigger] all[j].0 == other;
                        if j < i {
                            assert(before.contains(other));
                        }
                    }
                }
            }
        }
        proof {
            assert forall|name: Seq<char>| #[trigger] r@.contains(name) == self@.visible(
                scopes@,
            ).contains(name) by {
                lemma_table_of(all, name);
            }
            assert(r@ =~= self@.visible(scopes@));
        }
        r
    }
}

/// The policy of a service as a value: one tool reads, two write, and there is no
/// other.
pub open spec fn service_policy(service: ServiceModel) -> PolicyModel {
    PolicyModel {
        read_scope: service.read_scope(),
        write_scope: service.write_scope(),
        table: map![
            "opus_health"@ => ToolClass::Read,
            "opus_think"@ => ToolClass::Write,
            "opus_session"@ => ToolClass::Write,
        ],
    }
}

/// The entries that give each tool of `names` the class `class`.
spec fn listed(names: Seq<&'static str>, class: ToolClass) -> Seq<(Seq<char>, ToolClass)> {
    names.map_values(|n: &'static str| (n@, class))
}

proof fn lemma_service_table(service: ServiceModel)
    ensures
        table_of(
            listed(OUTILS_LECTURE@, ToolClass::Read) + listed(OUTILS_ECRITURE@, ToolClass::Write),
        ) == service_policy(service).table,
{
    let all = listed(OUTILS_LECTURE@, ToolClass::Read) + listed(OUTILS_ECRITURE@, ToolClass::Write);
    assert(all =~= seq![
        ("opus_health"@, ToolClass::Read),
        ("opus_think"@, ToolClass::Write),
        ("opus_session"@, ToolClass::Write),
    ]);
    reveal_with_fuel(table_of, 4);
    assert(table_of(all) =~= service_policy(service).table);
}

/// The policy of the service.
pub fn policy(service: &Service) -> (r: TablePolicy)
    ensures
        r@ == service_policy(service@),
        r@.read_scope == service.slug@ + ":lecture"@,
        r@.write_scope == service.slug@ + ":ecriture"@,
        forall|name: Seq<char>| #[trigger]
            r@.table.contains_key(name) <==> name == "opus_health"@ || name == "opus_think"@ || name
                == "opus_session"@,
        r@.table["opus_health"@] == ToolClass::Read,
        r@.table["opus_think"@] == ToolClass::Write,
        r@.table["opus_session"@] == ToolClass::Write,
{
    let mut entries: Vec<(String, ToolClass)> = Vec::with_capacity(3);
    let ghost read = listed(OUTILS_LECTURE@, ToolClass::Read);
    let ghost write = listed(OUTILS_ECRITURE@, ToolClass::Write);
    for i in 0..OUTILS_LECTURE.len()
        invariant
            read == listed(OUTILS_LECTURE@, ToolClass::Read),
            entries_view(entries@) == read.take(i as int),
    {
        let ghost before = entries_view(entries@);
        entries.push((OUTILS_LECTURE[i].to_string(), ToolClass::Read));
        assert(entries_view(entries@) =~= before.push(read[i as int]));
        assert(entries_view(entries@) =~= read.take(i + 1));
    }
    assert(read.take(read.len() as int) =~= read);
    assert(read + write.take(0) =~= read);
    for i in 0..OUTILS_ECRITURE.len()
        invariant
            write == listed(OUTILS_ECRITURE@, ToolClass::Write),
            entries_view(entries@) == read + write.take(i as int),
    {
        let ghost before = entries_view(entries@);
        entries.push((OUTILS_ECRITURE[i].to_string(), ToolClass::Write));
        assert(entries_view(entries@) =~= before.push(write[i as int]));
        assert(entries_view(entries@) =~= read + write.take(i + 1));
    }
    assert(write.take(write.len() as int) =~= write);
    proof {
        lemma_service_table(service@);
        law_tools_are_distinct();
    }
    TablePolicy::new(service.read_scope().as_str(), service.write_scope().as_str(), entries)
}

/// A client sees a tool exactly where it may call it, under any scopes.
pub proof fn law_visible_is_callable(p: PolicyModel, name: Seq<char>, scopes: Set<Seq<char>>)
    ensures
        p.visible(scopes).contains(name) <==> p.allows(name, scopes),
{
}

/// A tool that the table does not list is refused, whatever the scopes.
pub proof fn law_unlisted_is_refused(p: PolicyModel, name: Seq<char>, scopes: Set<Seq<char>>)
    requires
        !p.table.contains_key(name),
    ensures
        !p.allows(name, scopes),
        !p.visible(scopes).contains(name),
{
}

/// More scopes never close a tool.
pub proof fn law_more_scopes_open_more(
    p: PolicyModel,
    fewer: Set<Seq<char>>,
    more: Set<Seq<char>>,
)
    requires
        fewer.subset_of(more),
    ensures
        p.visible(fewer).subset_of(p.visible(more)),
        forall|name: Seq<char>| p.allows(name, fewer) ==> #[trigger] p.allows(name, more),
{
}

/// The write scope opens every tool of the table, those that read included.
pub proof fn law_write_scope_opens_all(p: PolicyModel, name: Seq<char>, scopes: Set<Seq<char>>)
    requires
        p.class_of(name) != ToolClass::Unknown,
        scopes.contains(p.write_scope),
    ensures
        p.allows(name, scopes),
        p.visible(scopes).contains(name),
{
}

/// What a client of a service sees: the three tools with the write scope, the one
/// that reads with the read scope alone, and nothing without either.
pub proof fn law_service_visible(service: ServiceModel, scopes: Set<Seq<char>>)
    ensures
        service_policy(service).visible(scopes) == if scopes.contains(service.write_scope()) {
            set!["opus_health"@, "opus_think"@, "opus_session"@]
        } else if scopes.contains(service.read_scope()) {
            set!["opus_health"@]
        } else {
            Set::empty()
        },
        service_policy(service).visible(scopes).finite(),
        service_policy(service).visible(scopes).len() == if scopes.contains(
            service.write_scope(),
        ) {
            3nat
        } else if scopes.contains(service.read_scope()) {
            1
        } else {
            0
        },
{
    law_tools_are_distinct();
    law_scopes_are_distinct(service);
    let v = service_policy(service).visible(scopes);
    if scopes.contains(service.write_scope()) {
        assert(v =~= set!["opus_health"@, "opus_think"@, "opus_session"@]);
    } else if scopes.contains(service.read_scope()) {
        assert(v =~= set!["opus_health"@]);
    } else {
        assert(v =~= Set::empty());
    }
}

/// The tools of a service, by class: `opus_health` reads, `opus_think` and
/// `opus_session` write, and every other name is unknown.
pub proof fn law_service_classes(service: ServiceModel, name: Seq<char>)
    ensures
        service_policy(service).class_of(name) == ToolClass::Read <==> name == "opus_health"@,
        service_policy(service).class_of(name) == ToolClass::Write <==> name == "opus_think"@
            || name == "opus_session"@,
{
    law_tools_are_distinct();
}

/// A refusal for want of a scope names that scope.
pub proof fn law_refusal_names_scope(p: PolicyModel, name: Seq<char>)
    requires
        p.table.contains_key(name),
        p.table[name] != ToolClass::Unknown,
    ensures
        ({
            let scope = if p.table[name] == ToolClass::Write {
                p.write_scope
            } else {
                p.read_scope
            };
            scope.is_suffix_of(p.refusal(name))
        }),
{
    let scope = if p.table[name] == ToolClass::Write {
        p.write_scope
    } else {
        p.read_scope
    };
    let whole = p.refusal(name);
    assert(whole.subrange(whole.len() - scope.len(), whole.len() as int) =~= scope);
}

/// Which calls are allowed, and which tools are seen, by the table and the scopes
/// alone: a tool that the table lists as one that reads, with either scope; one that it
/// lists as one that writes, with the write scope; and no other.
pub proof fn law_decision(p: PolicyModel, name: Seq<char>, scopes: Set<Seq<char>>)
    ensures
        p.allows(name, scopes) <==> p.table.contains_key(name) && {
            ||| p.table[name] == ToolClass::Write && scopes.contains(p.write_scope)
            ||| p.table[name] == ToolClass::Read && scopes.contains(p.write_scope)
            ||| p.table[name] == ToolClass::Read && scopes.contains(p.read_scope)
        },
        p.visible(scopes).contains(name) <==> p.table.contains_key(name) && {
            ||| p.table[name] == ToolClass::Write && scopes.contains(p.write_scope)
            ||| p.table[name] == ToolClass::Read && scopes.contains(p.write_scope)
            ||| p.table[name] == ToolClass::Read && scopes.contains(p.read_scope)
        },
        p.class_of(name) == ToolClass::Unknown <==> !p.table.contains_key(name) || p.table[name]
            == ToolClass::Unknown,
        p.table.contains_key(name) ==> p.class_of(name) == p.table[name],
{
}

/// The scopes that do not stand in the policy change nothing, and neither do the other
/// tools of the table: two policies that agree on a tool and on both scopes decide alike
/// on it, under scopes that agree on those two.
pub proof fn law_decision_depends_on_nothing_else(
    p: PolicyModel,
    q: PolicyModel,
    name: Seq<char>,
    scopes: Set<Seq<char>>,
    others: Set<Seq<char>>,
)
    requires
        p.read_scope == q.read_scope,
        p.write_scope == q.write_scope,
        p.table.contains_key(name) == q.table.contains_key(name),
        p.table.contains_key(name) ==> p.table[name] == q.table[name],
        scopes.contains(p.read_scope) == others.contains(p.read_scope),
        scopes.contains(p.write_scope) == others.contains(p.write_scope),
    ensures
        p.allows(name, scopes) == q.allows(name, others),
        p.refusal(name) == q.refusal(name),
{
}

/// Why a call is refused: the whole scope that is wanting, or the whole name of a tool
/// that is not known.
pub proof fn law_refusal_text(p: PolicyModel, name: Seq<char>)
    ensures
        p.table.contains_key(name) && p.table[name] == ToolClass::Read ==> p.refusal(name)
            == "portee requise : "@ + p.read_scope,
        p.table.contains_key(name) && p.table[name] == ToolClass::Write ==> p.refusal(name)
            == "portee requise : "@ + p.write_scope,
        !p.table.contains_key(name) || p.table[name] == ToolClass::Unknown ==> p.refusal(name)
            == "outil inconnu (fail-closed) : "@ + name,
{
}

/// A table starts empty; one entry more gives its tool its class, and leaves the other
/// tools as they were.
pub proof fn law_table_grows_by_entries(
    entries: Seq<(Seq<char>, ToolClass)>,
    name: Seq<char>,
    class: ToolClass,
)
    ensures
        table_of(Seq::empty()) == Map::<Seq<char>, ToolClass>::empty(),
        table_of(entries.push((name, class))) == table_of(entries).insert(name, class),
{
    assert(entries.push((name, class)).drop_last() =~= entries);
}

/// A list of entries is read entry by entry: each name and each class as it stands.
pub proof fn law_entries_are_read_as_they_stand(entries: Seq<(String, ToolClass)>, i: int)
    requires
        0 <= i < entries.len(),
    ensures
        entries_view(entries).len() == entries.len(),
        entries_view(entries)[i].0 == entries[i].0@,
        entries_view(entries)[i].1 == entries[i].1,
{
}

/// What a client of a service may call, by the slug of the service and the scopes of
/// the client: the tool that reads with either of the two scopes that the slug makes,
/// the two that write with the one that ends in `:ecriture`, and nothing else.
pub proof fn law_service_calls(service: ServiceModel, name: Seq<char>, scopes: Set<Seq<char>>)
    ensures
        service_policy(service).allows(name, scopes) <==> {
            ||| name == "opus_health"@ && scopes.contains(service.slug + ":lecture"@)
            ||| name == "opus_health"@ && scopes.contains(service.slug + ":ecriture"@)
            ||| name == "opus_think"@ && scopes.contains(service.slug + ":ecriture"@)
            ||| name == "opus_session"@ && scopes.contains(service.slug + ":ecriture"@)
        },
        service_policy(service).visible(scopes).contains(name) <==> {
            ||| name == "opus_health"@ && scopes.contains(service.slug + ":lecture"@)
            ||| name == "opus_health"@ && scopes.contains(service.slug + ":ecriture"@)
            ||| name == "opus_think"@ && scopes.contains(service.slug + ":ecriture"@)
            ||| name == "opus_session"@ && scopes.contains(service.slug + ":ecriture"@)
        },
{
    law_tools_are_distinct();
}

} // verus!
