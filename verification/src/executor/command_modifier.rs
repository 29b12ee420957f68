//! Command modifiers: transformations applied to a shell command line, such as prefixing it with a
//! network namespace invocation, appending to it, rewriting it or replacing parts of it.

use vstd::prelude::*;

use vstd::std_specs::cmp::PartialEqSpecImpl;

use crate::pairs::{as_map, clone_pairs, lemma_upsert_unique, same_entries, unique_keys, upsert, upsert_pair};
use crate::text::{replace, replace_all};

verus! {

/// A command modifier is a transformation of a shell command line passed by mutable reference.
/// Multiple command modifiers can be chained together.
pub trait CommandModifier: Sync {
    /// What the modification makes of the given command.
    spec fn spec_modify(&self, command: Seq<char>) -> Seq<char>;

    /// Perform the modification of the given command passed by mutable reference.
    fn modify_command(&self, command: &mut String)
        ensures
            final(command)@ == self.spec_modify(old(command)@),
    ;
}

/// The command after applying every modifier of the chain, in order.
pub open spec fn modified_by_chain(modifiers: Seq<Box<dyn CommandModifier>>, command: Seq<char>) -> Seq<char>
    decreases modifiers.len(),
{
    if modifiers.len() == 0 {
        command
    } else {
        modifiers.last().spec_modify(modified_by_chain(modifiers.drop_last(), command))
    }
}

/// A command modifier that leaves the command as it is.
#[derive(Debug, Default)]
pub struct NoCommandModifier {}

impl CommandModifier for NoCommandModifier {
    open spec fn spec_modify(&self, command: Seq<char>) -> Seq<char> {
        command
    }

    fn modify_command(&self, _command: &mut String) {
    }
}

/// A command modifier that runs the command inside a network namespace via
/// "ip netns exec NETNS COMMAND".
#[derive(Debug, Clone, PartialEq, Eq, PartialOrd, Ord, Hash)]
pub struct NetnsCommandModifier {
    netns_name: String,
    iproute2_path: String,
}

impl NetnsCommandModifier {
    /// The name of the network namespace.
    pub closed spec fn spec_netns_name(&self) -> Seq<char> {
        self.netns_name@
    }

    /// The path of the iproute2 "ip" binary.
    pub closed spec fn spec_iproute2_path(&self) -> Seq<char> {
        self.iproute2_path@
    }

    /// A modifier for the given network namespace, invoking "/usr/sbin/ip".
    pub fn new(netns_name: &str) -> (r: Self)
        ensures
            r.spec_netns_name() == netns_name@,
            r.spec_iproute2_path() == "/usr/sbin/ip"@,
    {
        Self { netns_name: netns_name.to_owned(), iproute2_path: "/usr/sbin/ip".to_owned() }
    }

    /// Use the "ip" binary at the given path.
    pub fn iproute2_path(self, iproute2_path: &str) -> (r: Self)
        ensures
            r.spec_netns_name() == self.spec_netns_name(),
            r.spec_iproute2_path() == iproute2_path@,
    {
        Self { iproute2_path: iproute2_path.to_owned(), ..self }
    }
}

impl CommandModifier for NetnsCommandModifier {
    open spec fn spec_modify(&self, command: Seq<char>) -> Seq<char> {
        self.spec_iproute2_path() + " netns exec "@ + self.spec_netns_name() + " "@ + command
    }

    fn modify_command(&self, command: &mut String) {
        let mut modified = self.iproute2_path.clone();
        modified.append(" netns exec ");
        modified.append(self.netns_name.as_str());
        modified.append(" ");
        modified.append(command.as_str());
        *command = modified;
    }
}

/// A command modifier that appends an arbitrary string to the end of the original command.
#[derive(Debug, Clone, PartialEq, Eq, PartialOrd, Ord, Hash)]
pub struct AppendCommandModifier {
    appended_command: String,
}

impl AppendCommandModifier {
    /// The text that is appended.
    pub closed spec fn spec_appended_command(&self) -> Seq<char> {
        self.appended_command@
    }

    /// A modifier that appends the given text.
    pub fn new(appended_command: &str) -> (r: Self)
        ensures
            r.spec_appended_command() == appended_command@,
    {
        Self { appended_command: appended_command.to_owned() }
    }
}

impl CommandModifier for AppendCommandModifier {
    open spec fn spec_modify(&self, command: Seq<char>) -> Seq<char> {
        command + self.spec_appended_command()
    }

    fn modify_command(&self, command: &mut String) {
        command.append(self.appended_command.as_str());
    }
}

/// A command modifier that replaces the whole command with another one.
#[derive(Debug, Clone, PartialEq, Eq, PartialOrd, Ord, Hash)]
pub struct RewriteCommandModifier {
    new_command: String,
}

impl RewriteCommandModifier {
    /// The command that replaces the original one.
    pub closed spec fn spec_new_command(&self) -> Seq<char> {
        self.new_command@
    }

    /// A modifier that replaces the command with the given one.
    pub fn new(new_command: &str) -> (r: Self)
        ensures
            r.spec_new_command() == new_command@,
    {
        Self { new_command: new_command.to_owned() }
    }
}

impl CommandModifier for RewriteCommandModifier {
    open spec fn spec_modify(&self, command: Seq<char>) -> Seq<char> {
        self.spec_new_command()
    }

    fn modify_command(&self, command: &mut String) {
        *command = self.new_command.clone();
    }
}

/// The command after replacing, for every pair in order, the matches of its first part with its second.
pub open spec fn replace_each(command: Seq<char>, replacements: Seq<(Seq<char>, Seq<char>)>) -> Seq<char>
    decreases replacements.len(),
{
    if replacements.len() == 0 {
        command
    } else {
        let c = replace_each(command, replacements.drop_last());
        replace_all(c, replacements.last().0, replacements.last().1)
    }
}

/// A command modifier that replaces every match of each registered text with its replacement.
#[derive(Debug, Eq)]
pub struct ReplaceCommandModifier {
    replacements: Vec<(String, String)>,
}

impl ReplaceCommandModifier {
    #[verifier::type_invariant]
    spec fn originals_are_unique(self) -> bool {
        unique_keys(self.replacements.deep_view())
    }

    /// The registered replacements, in the order in which their originals were first registered.
    pub closed spec fn spec_replacements(&self) -> Seq<(Seq<char>, Seq<char>)> {
        self.replacements.deep_view()
    }

    /// A modifier without replacements.
    pub fn new() -> (r: Self)
        ensures
            r.spec_replacements() == Seq::<(Seq<char>, Seq<char>)>::empty(),
    {
        let r = Self { replacements: Vec::new() };
        assert(r.replacements.deep_view() =~= Seq::<(Seq<char>, Seq<char>)>::empty());
        r
    }

    /// Also replace `original` with `new`; a later registration of the same original takes the
    /// place of the earlier one.
    pub fn replace(self, original: &str, new: &str) -> (r: Self)
        ensures
            r.spec_replacements() == upsert(self.spec_replacements(), original@, new@),
            unique_keys(r.spec_replacements()),
    {
        proof {
            use_type_invariant(&self);
            lemma_upsert_unique(self.replacements.deep_view(), original@, new@);
        }
        let ReplaceCommandModifier { replacements } = self;
        let mut replacements = replacements;
        upsert_pair(&mut replacements, original.to_owned(), new.to_owned());
        ReplaceCommandModifier { replacements }
    }
}

impl Clone for ReplaceCommandModifier {
    /// A modifier with the same replacements in the same order.
    fn clone(&self) -> (r: Self)
        ensures
            r.spec_replacements() == self.spec_replacements(),
    {
        proof {
            use_type_invariant(self);
        }
        ReplaceCommandModifier { replacements: clone_pairs(&self.replacements) }
    }
}

impl PartialEq for ReplaceCommandModifier {
    /// Two modifiers are equal when they replace the same originals with the same texts, whatever
    /// the order in which these were registered.
    fn eq(&self, other: &Self) -> (r: bool) {
        proof {
            use_type_invariant(self);
            use_type_invariant(other);
        }
        same_entries(&self.replacements, &other.replacements)
    }
}

impl PartialEqSpecImpl for ReplaceCommandModifier {
    open spec fn obeys_eq_spec() -> bool {
        true
    }

    open spec fn eq_spec(&self, other: &Self) -> bool {
        as_map(self.spec_replacements()) == as_map(other.spec_replacements())
    }
}

impl CommandModifier for ReplaceCommandModifier {
    open spec fn spec_modify(&self, command: Seq<char>) -> Seq<char> {
        replace_each(command, self.spec_replacements())
    }

    fn modify_command(&self, command: &mut String) {
        let ghost original = command@;
        let ghost all = self.replacements.deep_view();
        let mut i: usize = 0;
        assert(all.take(0) =~= Seq::<(Seq<char>, Seq<char>)>::empty());
        while i < self.replacements.len()
            invariant
                i <= self.replacements.len(),
                all == self.replacements.deep_view(),
                command@ == replace_each(original, all.take(i as int)),
            decreases self.replacements.len() - i,
        {
            let pair = &self.replacements[i];
            assert(all[i as int] == (pair.0@, pair.1@));
            let replaced = replace(command.as_str(), pair.0.as_str(), pair.1.as_str());
            *command = replaced;
            assert(all.take(i + 1).drop_last() =~= all.take(i as int));
            assert(all.take(i + 1).last() == all[i as int]);
            i += 1;
        }
        assert(all.take(self.replacements.len() as int) =~= all);
    }
}

/// Apply every modifier of the chain to the command, in order.
pub fn apply_command_modifier_chain(command: &mut String, modifiers: &Vec<Box<dyn CommandModifier>>)
    ensures
        final(command)@ == modified_by_chain(modifiers@, old(command)@),
{
    let ghost before = command@;
    let mut i: usize = 0;
    assert(modifiers@.take(0) =~= Seq::<Box<dyn CommandModifier>>::empty());
    while i < modifiers.len()
        invariant
            i <= modifiers.len(),
            command@ == modified_by_chain(modifiers@.take(i as int), before),
        decreases modifiers.len() - i,
    {
        modifiers[i].modify_command(command);
        assert(modifiers@.take(i + 1).drop_last() =~= modifiers@.take(i as int));
        i += 1;
    }
    assert(modifiers@.take(modifiers.len() as int) =~= modifiers@);
}

} // verus!
