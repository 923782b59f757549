//! The provider table: which base URL each provider name stands for.

use vstd::prelude::*;
use crate::errors::AppError;
use crate::overrides::{json_overrides, parse_overrides, OverrideEntry, Overrides};

verus! {

/// One row of the table.
#[derive(Debug, Clone)]
pub struct Provider {
    pub name: String,
    pub base_url: String,
}

/// A mapping from provider names to base URLs. Names are case-sensitive and
/// no name occurs twice.
#[derive(Debug, Clone)]
pub struct ProviderTable {
    entries: Vec<Provider>,
}

/// Whether some row of `rows` carries the name `name`.
pub open spec fn has_name(rows: Seq<Provider>, name: Seq<char>) -> bool {
    exists|i: int| 0 <= i < rows.len() && (#[trigger] rows[i]).name@ == name
}

/// The index of a row of `rows` that carries the name `name`.
pub open spec fn row_of(rows: Seq<Provider>, name: Seq<char>) -> int {
    choose|i: int| 0 <= i < rows.len() && (#[trigger] rows[i]).name@ == name
}

/// No two rows of `rows` carry the same name.
pub open spec fn distinct_names(rows: Seq<Provider>) -> bool {
    forall|i: int, j: int|
        0 <= i < j < rows.len() ==> (#[trigger] rows[i]).name@ != (#[trigger] rows[j]).name@
}

/// The built-in providers.
pub open spec fn default_providers() -> Map<Seq<char>, Seq<char>> {
    Map::<Seq<char>, Seq<char>>::empty().insert("openai"@, "https://api.openai.com/"@).insert(
        "groq"@,
        "https://api.groq.com/"@,
    ).insert("cerebras"@, "https://api.cerebras.ai/"@).insert(
        "gemini"@,
        "https://generativelanguage.googleapis.com/"@,
    ).insert("sambanova"@, "https://api.sambanova.ai/"@).insert(
        "anthropic"@,
        "https://api.anthropic.com/"@,
    )
}

impl View for ProviderTable {
    type V = Map<Seq<char>, Seq<char>>;

    closed spec fn view(&self) -> Map<Seq<char>, Seq<char>> {
        Map::new(
            |name: Seq<char>| has_name(self.entries@, name),
            |name: Seq<char>| self.entries@[row_of(self.entries@, name)].base_url@,
        )
    }
}

impl ProviderTable {
    /// The table's invariant: every name occurs once.
    pub closed spec fn wf(&self) -> bool {
        distinct_names(self.entries@)
    }

    /// The empty table.
    pub fn new() -> (table: ProviderTable)
        ensures
            table.wf(),
            table@ == Map::<Seq<char>, Seq<char>>::empty(),
    {
        let table = ProviderTable { entries: Vec::new() };
        assert(table@ =~= Map::<Seq<char>, Seq<char>>::empty());
        table
    }

    /// Number of providers in the table.
    pub fn len(&self) -> (n: usize)
        requires
            self.wf(),
        ensures
            n == self@.dom().len(),
            self@.dom().finite(),
    {
        proof {
            self.lemma_domain_size();
        }
        self.entries.len()
    }

    proof fn lemma_domain_size(&self)
        requires
            self.wf(),
        ensures
            self@.dom().finite(),
            self@.dom().len() == self.entries@.len(),
    {
        lemma_names_size(self.entries@);
        assert(self@.dom() =~= names_of(self.entries@));
    }

    /// Where the row named `name` stands, if there is one.
    fn position(&self, name: &String) -> (found: Option<usize>)
        ensures
            match found {
                Some(i) => i < self.entries@.len() && self.entries@[i as int].name@ == name@,
                None => !has_name(self.entries@, name@),
            },
    {
        let mut i: usize = 0;
        while i < self.entries.len()
            invariant
                i <= self.entries@.len(),
                forall|k: int| 0 <= k < i ==> (#[trigger] self.entries@[k]).name@ != name@,
            decreases self.entries@.len() - i,
        {
            if self.entries[i].name == *name {
                return Some(i);
            }
            i += 1;
        }
        None
    }

    /// Sets the base URL of `name`, replacing the one it had.
    pub fn insert(&mut self, name: String, base_url: String)
        requires
            old(self).wf(),
        ensures
            final(self).wf(),
            final(self)@ == old(self)@.insert(name@, base_url@),
    {
        let ghost before = self.entries@;
        let ghost key = name@;
        let ghost url = base_url@;
        let ghost at: int;
        match self.position(&name) {
            Some(i) => {
                self.entries.set(i, Provider { name, base_url });
                proof {
                    at = i as int;
                }
            },
            None => {
                self.entries.push(Provider { name, base_url });
                proof {
                    at = before.len() as int;
                }
            },
        }
        proof {
            let after = self.entries@;
            assert(after[at].name@ == key && after[at].base_url@ == url);
            assert(forall|j: int| 0 <= j < before.len() && j != at ==> after[j] == before[j]);
            assert(forall|j: int|
                0 <= j < before.len() && j != at ==> (#[trigger] before[j]).name@ != key);
            assert(distinct_names(after));
            assert forall|k: Seq<char>| has_name(after, k) <==> (k == key || has_name(before, k)) by {
                if has_name(before, k) {
                    let j = row_of(before, k);
                    assert(after[j].name@ == k);
                }
                if has_name(after, k) && k != key {
                    let j = row_of(after, k);
                    assert(before[j].name@ == k);
                }
            }
            assert forall|k: Seq<char>| has_name(after, k) implies after[row_of(after, k)].base_url@
                == (if k == key { url } else { before[row_of(before, k)].base_url@ }) by {
                let j = row_of(after, k);
                if k != key {
                    assert(before[j].name@ == k);
                    assert(row_of(before, k) == j);
                } else {
                    assert(j == at);
                }
            }
            assert(self@ =~= old(self)@.insert(key, url));
        }
    }

    /// Looks a provider up by name. The names are compared as they are,
    /// letter case included.
    pub fn resolve(&self, name: &str) -> (found: Result<String, AppError>)
        requires
            self.wf(),
        ensures
            match found {
                Ok(base_url) => self@.contains_key(name@) && base_url@ == self@[name@],
                Err(AppError::ProviderNotFound(missing)) => !self@.contains_key(name@) && missing@
                    == name@,
                Err(_) => false,
            },
    {
        let key = name.to_owned();
        match self.position(&key) {
            Some(i) => {
                proof {
                    assert(has_name(self.entries@, name@));
                    assert(row_of(self.entries@, name@) == i);
                }
                Ok(self.entries[i].base_url.clone())
            },
            None => Err(AppError::ProviderNotFound(key)),
        }
    }

    /// The table of the built-in providers.
    pub fn with_defaults() -> (table: ProviderTable)
        ensures
            table.wf(),
            table@ == default_providers(),
    {
        let mut table = ProviderTable::new();
        table.insert("openai".to_owned(), "https://api.openai.com/".to_owned());
        table.insert("groq".to_owned(), "https://api.groq.com/".to_owned());
        table.insert("cerebras".to_owned(), "https://api.cerebras.ai/".to_owned());
        table.insert("gemini".to_owned(), "https://generativelanguage.googleapis.com/".to_owned());
        table.insert("sambanova".to_owned(), "https://api.sambanova.ai/".to_owned());
        table.insert("anthropic".to_owned(), "https://api.anthropic.com/".to_owned());
        table
    }
}

/// The names that the rows of `rows` carry.
pub open spec fn names_of(rows: Seq<Provider>) -> Set<Seq<char>> {
    Set::new(|name: Seq<char>| has_name(rows, name))
}

proof fn lemma_names_size(rows: Seq<Provider>)
    requires
        distinct_names(rows),
    ensures
        names_of(rows).finite(),
        names_of(rows).len() == rows.len(),
    decreases rows.len(),
{
    if rows.len() == 0 {
        assert(names_of(rows) =~= Set::<Seq<char>>::empty());
    } else {
        let front = rows.drop_last();
        let last = rows.last();
        assert(distinct_names(front)) by {
            assert forall|i: int, j: int| 0 <= i < j < front.len() implies (#[trigger] front[i]).name@
                != (#[trigger] front[j]).name@ by {
                assert(rows[i].name@ != rows[j].name@);
            }
        }
        lemma_names_size(front);
        assert(!names_of(front).contains(last.name@)) by {
            if has_name(front, last.name@) {
                let i = row_of(front, last.name@);
                assert(rows[i].name@ != rows[rows.len() - 1].name@);
            }
        }
        assert(names_of(rows) =~= names_of(front).insert(last.name@)) by {
            assert forall|k: Seq<char>| has_name(rows, k) <==> (k == last.name@ || has_name(front, k)) by {
                if has_name(front, k) {
                    let i = row_of(front, k);
                    assert(rows[i].name@ == k);
                }
                if k == last.name@ {
                    assert(rows[rows.len() - 1].name@ == k);
                }
                if has_name(rows, k) && k != last.name@ {
                    let i = row_of(rows, k);
                    assert(front[i].name@ == k);
                }
            }
        }
    }
}

/// The table after the members are applied in order: a member with a string
/// value sets the URL of its name, any other member is skipped.
pub open spec fn apply_members(
    table: Map<Seq<char>, Seq<char>>,
    members: Seq<(Seq<char>, Option<Seq<char>>)>,
) -> Map<Seq<char>, Seq<char>>
    decreases members.len(),
{
    if members.len() == 0 {
        table
    } else {
        let before = apply_members(table, members.drop_last());
        match members.last().1 {
            Some(url) => before.insert(members.last().0, url),
            None => before,
        }
    }
}

/// The table after an override document is applied: one that is no object
/// changes nothing.
pub open spec fn apply_overrides(
    table: Map<Seq<char>, Seq<char>>,
    document: Option<Seq<(Seq<char>, Option<Seq<char>>)>>,
) -> Map<Seq<char>, Seq<char>> {
    match document {
        Some(members) => apply_members(table, members),
        None => table,
    }
}

/// The table that a configuration gives: the built-in providers, with the
/// override document applied where there is one and it is JSON.
pub open spec fn configured_providers(
    outcome: Option<Result<Option<Seq<(Seq<char>, Option<Seq<char>>)>>, serde_json::Error>>,
) -> Map<Seq<char>, Seq<char>> {
    match outcome {
        Some(Ok(document)) => apply_overrides(default_providers(), document),
        _ => default_providers(),
    }
}

impl ProviderTable {
    /// Applies an override document to the table.
    pub fn merge(&mut self, document: &Overrides)
        requires
            old(self).wf(),
        ensures
            final(self).wf(),
            final(self)@ == apply_overrides(old(self)@, document@),
    {
        match document {
            Overrides::Object(members) => {
                let ghost all = members@.map_values(|m: OverrideEntry| m@);
                let mut i: usize = 0;
                while i < members.len()
                    invariant
                        i <= members@.len(),
                        self.wf(),
                        all == members@.map_values(|m: OverrideEntry| m@),
                        self@ == apply_members(old(self)@, all.take(i as int)),
                    decreases members@.len() - i,
                {
                    proof {
                        assert(all.take(i + 1).drop_last() =~= all.take(i as int));
                        assert(all.take(i + 1).last() == members@[i as int]@);
                    }
                    match &members[i].url {
                        Some(url) => {
                            self.insert(members[i].name.clone(), url.clone());
                        },
                        None => {},
                    }
                    i += 1;
                }
                proof {
                    assert(all.take(i as int) =~= all);
                }
            },
            Overrides::NotObject => {},
        }
    }
}

/// Builds the table at startup from the built-in providers and the override
/// text, if one is configured. A text that is not JSON, or no JSON object,
/// leaves the built-in table as it is; so does each member whose value is no
/// string.
pub fn load_env_providers(overrides: Option<&str>) -> (table: ProviderTable)
    ensures
        table.wf(),
        table@ == configured_providers(
            match overrides {
                Some(text) => Some(json_overrides(text@)),
                None => None,
            },
        ),
{
    let mut table = ProviderTable::with_defaults();
    if let Some(text) = overrides {
        if let Ok(document) = parse_overrides(text) {
            table.merge(&document);
        }
    }
    table
}

/// An override text that is not JSON, or whose document is no object, leaves
/// the built-in table as it is; so does the absence of any override text.
pub proof fn lemma_unusable_overrides_keep_defaults(
    outcome: Option<Result<Option<Seq<(Seq<char>, Option<Seq<char>>)>>, serde_json::Error>>,
)
    requires
        outcome is None || outcome->Some_0 is Err || outcome->Some_0->Ok_0 is None,
    ensures
        configured_providers(outcome) == default_providers(),
{
}

/// A built-in provider that no string member of the override document names
/// keeps its built-in base URL.
pub proof fn lemma_untouched_defaults_stay(
    members: Seq<(Seq<char>, Option<Seq<char>>)>,
    name: Seq<char>,
)
    requires
        default_providers().contains_key(name),
        forall|i: int|
            0 <= i < members.len() ==> (#[trigger] members[i]).0 != name || members[i].1 is None,
    ensures
        configured_providers(
            Some(
                Ok::<Option<Seq<(Seq<char>, Option<Seq<char>>)>>, serde_json::Error>(Some(members)),
            ),
        ).contains_key(name),
        configured_providers(
            Some(
                Ok::<Option<Seq<(Seq<char>, Option<Seq<char>>)>>, serde_json::Error>(Some(members)),
            ),
        )[name] == default_providers()[name],
{
    lemma_overrides_keep_other_names(default_providers(), members, name);
}

/// Members that are skipped, or that set other names, leave a name as it
/// was: it is in the table after they are applied exactly if it was before,
/// with the same URL.
pub proof fn lemma_overrides_keep_other_names(
    table: Map<Seq<char>, Seq<char>>,
    members: Seq<(Seq<char>, Option<Seq<char>>)>,
    name: Seq<char>,
)
    requires
        forall|i: int|
            0 <= i < members.len() ==> (#[trigger] members[i]).0 != name || members[i].1 is None,
    ensures
        apply_members(table, members).contains_key(name) == table.contains_key(name),
        table.contains_key(name) ==> apply_members(table, members)[name] == table[name],
    decreases members.len(),
{
    if members.len() > 0 {
        let front = members.drop_last();
        assert forall|i: int| 0 <= i < front.len() implies (#[trigger] front[i]).0 != name
            || front[i].1 is None by {
            assert(front[i] == members[i]);
        }
        lemma_overrides_keep_other_names(table, front, name);
        assert(members[members.len() - 1] == members.last());
    }
}

/// A member with a string value sets the URL of its name, unless a later
/// member sets that name again.
pub proof fn lemma_last_override_wins(
    table: Map<Seq<char>, Seq<char>>,
    members: Seq<(Seq<char>, Option<Seq<char>>)>,
    at: int,
)
    requires
        0 <= at < members.len(),
        members[at].1 is Some,
        forall|i: int|
            at < i < members.len() ==> (#[trigger] members[i]).0 != members[at].0
                || members[i].1 is None,
    ensures
        apply_members(table, members).contains_key(members[at].0),
        apply_members(table, members)[members[at].0] == members[at].1->Some_0,
    decreases members.len(),
{
    let front = members.drop_last();
    if at == members.len() - 1 {
    } else {
        assert(front[at] == members[at]);
        assert forall|i: int| at < i < front.len() implies (#[trigger] front[i]).0 != members[at].0
            || front[i].1 is None by {
            assert(front[i] == members[i]);
        }
        lemma_last_override_wins(table, front, at);
        assert(members[members.len() - 1] == members.last());
    }
}

/// The built-in table holds the six providers, each with its own base URL.
pub proof fn lemma_default_providers()
    ensures
        default_providers().dom().finite(),
        default_providers().dom().len() == 6,
        default_providers().contains_key("openai"@),
        default_providers()["openai"@] == "https://api.openai.com/"@,
        default_providers().contains_key("groq"@),
        default_providers()["groq"@] == "https://api.groq.com/"@,
        default_providers().contains_key("cerebras"@),
        default_providers()["cerebras"@] == "https://api.cerebras.ai/"@,
        default_providers().contains_key("gemini"@),
        default_providers()["gemini"@] == "https://generativelanguage.googleapis.com/"@,
        default_providers().contains_key("sambanova"@),
        default_providers()["sambanova"@] == "https://api.sambanova.ai/"@,
        default_providers().contains_key("anthropic"@),
        default_providers()["anthropic"@] == "https://api.anthropic.com/"@,
{
    reveal_strlit("openai");
    reveal_strlit("groq");
    reveal_strlit("cerebras");
    reveal_strlit("gemini");
    reveal_strlit("sambanova");
    reveal_strlit("anthropic");
    assert("openai"@.len() == 6 && "openai"@[0] == 'o');
    assert("groq"@.len() == 4);
    assert("cerebras"@.len() == 8);
    assert("gemini"@.len() == 6 && "gemini"@[0] == 'g');
    assert("sambanova"@.len() == 9 && "sambanova"@[0] == 's');
    assert("anthropic"@.len() == 9 && "anthropic"@[0] == 'a');
    let names = set![
        "openai"@,
        "groq"@,
        "cerebras"@,
        "gemini"@,
        "sambanova"@,
        "anthropic"@,
    ];
    assert(default_providers().dom() =~= names);
}

} // verus!
