//! Argument modifiers: transformations applied to the argument vector of a VMM invocation, such as
//! prepending, appending or replacing arguments. Several modifiers can be chained.

use vstd::prelude::*;

verus! {

/// An argument modifier is a simple transformation that can be applied to a vector of arguments.
/// This allows customizing executor behavior beyond the scope of what the VMM and jailer arguments
/// take into consideration, such as prepending, appending or replacing parts of the command.
/// Multiple argument modifiers can also be chained together.
pub trait ArgumentModifier: Send + Sync {
    /// What the modification makes of the given arguments.
    spec fn spec_modify(&self, args: Seq<Seq<char>>) -> Seq<Seq<char>>;

    /// Perform the modification of the given arguments passed by mutable reference.
    fn modify_args(&self, args: &mut Vec<String>)
        ensures
            final(args).deep_view() == self.spec_modify(old(args).deep_view()),
    ;
}

/// The arguments after applying every modifier of the chain, in order.
pub open spec fn modified_by_chain(modifiers: Seq<Box<dyn ArgumentModifier>>, args: Seq<Seq<char>>) -> Seq<Seq<char>>
    decreases modifiers.len(),
{
    if modifiers.len() == 0 {
        args
    } else {
        modifiers.last().spec_modify(modified_by_chain(modifiers.drop_last(), args))
    }
}

/// An argument modifier that prepends "ip netns exec NETNS" to the actual command, thus utilizing iproute2
/// in order to move the process into a given network namespace.
#[derive(Debug, Clone, PartialEq, Eq, PartialOrd, Ord, Hash)]
pub struct NetnsArgumentModifier {
    netns_name: String,
    iproute2_path: String,
}

impl NetnsArgumentModifier {
    /// The name of the network namespace.
    pub closed spec fn spec_netns_name(&self) -> Seq<char> {
        self.netns_name@
    }

    /// The path of the iproute2 "ip" binary.
    pub closed spec fn spec_iproute2_path(&self) -> Seq<char> {
        self.iproute2_path@
    }

    /// A modifier for the given network namespace, invoking "/usr/sbin/ip".
    pub fn new(netns_name: &str) -> (r: Self)
        ensures
            r.spec_netns_name() == netns_name@,
            r.spec_iproute2_path() == "/usr/sbin/ip"@,
    {
        Self { netns_name: netns_name.to_owned(), iproute2_path: "/usr/sbin/ip".to_owned() }
    }

    /// Use the "ip" binary at the given path.
    pub fn iproute2_path(self, iproute2_path: &str) -> (r: Self)
        ensures
            r.spec_netns_name() == self.spec_netns_name(),
            r.spec_iproute2_path() == iproute2_path@,
    {
        Self { iproute2_path: iproute2_path.to_owned(), ..self }
    }
}

impl ArgumentModifier for NetnsArgumentModifier {
    open spec fn spec_modify(&self, args: Seq<Seq<char>>) -> Seq<Seq<char>> {
        seq![self.spec_iproute2_path(), "netns"@, "exec"@, self.spec_netns_name()] + args
    }

    fn modify_args(&self, args: &mut Vec<String>) {
        let ghost before = args.deep_view();
        args.insert(0, self.iproute2_path.clone());
        args.insert(1, "netns".to_owned());
        args.insert(2, "exec".to_owned());
        args.insert(3, self.netns_name.clone());
        assert(args.deep_view() =~= self.spec_modify(before));
    }
}

/// Push clones of all of `more` onto `args`.
fn extend_cloned(args: &mut Vec<String>, more: &Vec<String>)
    ensures
        final(args).deep_view() == old(args).deep_view() + more.deep_view(),
{
    let ghost before = args.deep_view();
    let mut i: usize = 0;
    while i < more.len()
        invariant
            i <= more.len(),
            args.deep_view() == before + more.deep_view().take(i as int),
        decreases more.len() - i,
    {
        let ghost prev = args.deep_view();
        let item = more[i].clone();
        assert(more.deep_view()[i as int] == item@);
        args.push(item);
        assert(args.deep_view() =~= prev.push(more.deep_view()[i as int]));
        assert(args.deep_view() =~= before + more.deep_view().take(i + 1));
        i += 1;
    }
    assert(more.deep_view().take(more.len() as int) =~= more.deep_view());
}

/// An argument modifier that appends arbitrary arguments to the end of the original ones.
#[derive(Debug, Clone, PartialEq, Eq, PartialOrd, Ord, Hash)]
pub struct AppendCommandModifier {
    appended_args: Vec<String>,
}

impl AppendCommandModifier {
    /// The arguments that are appended.
    pub closed spec fn spec_appended_args(&self) -> Seq<Seq<char>> {
        self.appended_args.deep_view()
    }

    /// A modifier that appends nothing yet.
    pub fn new() -> (r: Self)
        ensures
            r.spec_appended_args() == Seq::<Seq<char>>::empty(),
    {
        let r = Self { appended_args: Vec::new() };
        assert(r.appended_args.deep_view() =~= Seq::<Seq<char>>::empty());
        r
    }

    /// A modifier that appends nothing yet, with room for the given number of arguments.
    pub fn with_capacity(capacity: usize) -> (r: Self)
        ensures
            r.spec_appended_args() == Seq::<Seq<char>>::empty(),
    {
        let r = Self { appended_args: Vec::with_capacity(capacity) };
        assert(r.appended_args.deep_view() =~= Seq::<Seq<char>>::empty());
        r
    }

    /// Also append `arg`.
    pub fn arg(self, arg: &str) -> (r: Self)
        ensures
            r.spec_appended_args() == self.spec_appended_args().push(arg@),
    {
        let mut appended_args = self.appended_args;
        let ghost before = appended_args.deep_view();
        appended_args.push(arg.to_owned());
        assert(appended_args.deep_view() =~= before.push(arg@));
        Self { appended_args }
    }
}

impl ArgumentModifier for AppendCommandModifier {
    open spec fn spec_modify(&self, args: Seq<Seq<char>>) -> Seq<Seq<char>> {
        args + self.spec_appended_args()
    }

    fn modify_args(&self, args: &mut Vec<String>) {
        extend_cloned(args, &self.appended_args);
    }
}

/// An argument modifier that replaces the entire argument vector with an arbitrary one. Not recommended for use
/// unless you are completely certain the rewrite will lead to the correct command!
#[derive(Debug, Clone, PartialEq, Eq, PartialOrd, Ord, Hash)]
pub struct RewriteArgumentModifier {
    rewrite_args: Vec<String>,
}

impl RewriteArgumentModifier {
    /// The arguments that replace the original ones.
    pub closed spec fn spec_rewrite_args(&self) -> Seq<Seq<char>> {
        self.rewrite_args.deep_view()
    }

    /// A modifier that replaces the arguments with none yet.
    pub fn new() -> (r: Self)
        ensures
            r.spec_rewrite_args() == Seq::<Seq<char>>::empty(),
    {
        let r = Self { rewrite_args: Vec::new() };
        assert(r.rewrite_args.deep_view() =~= Seq::<Seq<char>>::empty());
        r
    }

    /// A modifier that replaces the arguments with none yet, with room for the given number of arguments.
    pub fn with_capacity(capacity: usize) -> (r: Self)
        ensures
            r.spec_rewrite_args() == Seq::<Seq<char>>::empty(),
    {
        let r = Self { rewrite_args: Vec::with_capacity(capacity) };
        assert(r.rewrite_args.deep_view() =~= Seq::<Seq<char>>::empty());
        r
    }

    /// Also put `arg` in the replacement.
    pub fn arg(self, arg: &str) -> (r: Self)
        ensures
            r.spec_rewrite_args() == self.spec_rewrite_args().push(arg@),
    {
        let mut rewrite_args = self.rewrite_args;
        let ghost before = rewrite_args.deep_view();
        rewrite_args.push(arg.to_owned());
        assert(rewrite_args.deep_view() =~= before.push(arg@));
        Self { rewrite_args }
    }
}

impl ArgumentModifier for RewriteArgumentModifier {
    open spec fn spec_modify(&self, args: Seq<Seq<char>>) -> Seq<Seq<char>> {
        self.spec_rewrite_args()
    }

    fn modify_args(&self, args: &mut Vec<String>) {
        args.clear();
        assert(args.deep_view() =~= Seq::<Seq<char>>::empty());
        extend_cloned(args, &self.rewrite_args);
        assert(Seq::<Seq<char>>::empty() + self.rewrite_args.deep_view() =~= self.rewrite_args.deep_view());
    }
}

/// Apply every modifier of the chain to the arguments, in order.
pub fn apply_argument_modifier_chain(args: &mut Vec<String>, modifiers: &Vec<Box<dyn ArgumentModifier>>)
    ensures
        final(args).deep_view() == modified_by_chain(modifiers@, old(args).deep_view()),
{
    let ghost before = args.deep_view();
    let mut i: usize = 0;
    assert(modifiers@.take(0) =~= Seq::<Box<dyn ArgumentModifier>>::empty());
    while i < modifiers.len()
        invariant
            i <= modifiers.len(),
            args.deep_view() == modified_by_chain(modifiers@.take(i as int), before),
        decreases modifiers.len() - i,
    {
        modifiers[i].modify_args(args);
        assert(modifiers@.take(i + 1).drop_last() =~= modifiers@.take(i as int));
        i += 1;
    }
    assert(modifiers@.take(modifiers.len() as int) =~= modifiers@);
}

} // verus!
