//! Lint passes, and the order in which they are told of the items of a
//! session.

use vstd::prelude::*;
use crate::context::AstContext;
use crate::item::{ExternCrateItem, ItemKind, ModItem, StaticItem, UseDeclItem};
use crate::lint::Lint;

verus! {

/// The hooks of a lint pass.
#[derive(Debug, Clone, Copy, PartialEq, Eq, Structural, Hash)]
pub enum Hook {
    CheckItem,
    CheckMod,
    CheckExternCrate,
    CheckUseDecl,
    CheckStaticItem,
}

/// A lint pass is told of every node of a session, once, in the order of
/// the source. It names the lints it may emit and implements the hooks it
/// cares for; a hook that it leaves out does nothing.
pub trait LintPass<'ast>: Sized {
    /// Whether this pass implements `hook`. A pass that says nothing may
    /// implement any hook; a pass that leaves hooks out says so here, and
    /// is then known to stay as it is when one of them is called.
    open spec fn implements(&self, hook: Hook) -> bool {
        true
    }

    /// The lints that this pass may emit.
    fn registered_lints(&self) -> Vec<Lint>;

    fn check_item(&mut self, _cx: &'ast AstContext<'ast>, _item: ItemKind<'ast>)
        ensures
            !old(self).implements(Hook::CheckItem) ==> *final(self) == *old(self),
    {
    }

    fn check_mod(&mut self, _cx: &'ast AstContext<'ast>, _mod_item: &'ast ModItem<'ast>)
        ensures
            !old(self).implements(Hook::CheckMod) ==> *final(self) == *old(self),
    {
    }

    fn check_extern_crate(&mut self, _cx: &'ast AstContext<'ast>, _extern_crate_item: &'ast ExternCrateItem)
        ensures
            !old(self).implements(Hook::CheckExternCrate) ==> *final(self) == *old(self),
    {
    }

    fn check_use_decl(&mut self, _cx: &'ast AstContext<'ast>, _use_item: &'ast UseDeclItem)
        ensures
            !old(self).implements(Hook::CheckUseDecl) ==> *final(self) == *old(self),
    {
    }

    fn check_static_item(&mut self, _cx: &'ast AstContext<'ast>, _item: &'ast StaticItem)
        ensures
            !old(self).implements(Hook::CheckStaticItem) ==> *final(self) == *old(self),
    {
    }
}

/// One call of a hook, with the node it is made for.
#[derive(Debug, Clone, Copy)]
pub enum HookCall<'ast> {
    Item(ItemKind<'ast>),
    Mod(&'ast ModItem<'ast>),
    ExternCrate(&'ast ExternCrateItem),
    UseDecl(&'ast UseDeclItem),
    StaticItem(&'ast StaticItem),
}

impl<'ast> HookCall<'ast> {
    /// The hook that this call goes to.
    pub open spec fn spec_hook(&self) -> Hook {
        match self {
            HookCall::Item(_) => Hook::CheckItem,
            HookCall::Mod(_) => Hook::CheckMod,
            HookCall::ExternCrate(_) => Hook::CheckExternCrate,
            HookCall::UseDecl(_) => Hook::CheckUseDecl,
            HookCall::StaticItem(_) => Hook::CheckStaticItem,
        }
    }

    pub fn hook(&self) -> (r: Hook)
        ensures
            r == self.spec_hook(),
    {
        match self {
            HookCall::Item(_) => Hook::CheckItem,
            HookCall::Mod(_) => Hook::CheckMod,
            HookCall::ExternCrate(_) => Hook::CheckExternCrate,
            HookCall::UseDecl(_) => Hook::CheckUseDecl,
            HookCall::StaticItem(_) => Hook::CheckStaticItem,
        }
    }
}

/// The call that an item gets for its own kind.
pub open spec fn call_of_kind<'ast>(item: ItemKind<'ast>) -> HookCall<'ast> {
    match item {
        ItemKind::Mod(data) => HookCall::Mod(data),
        ItemKind::ExternCrate(data) => HookCall::ExternCrate(data),
        ItemKind::UseDecl(data) => HookCall::UseDecl(data),
        ItemKind::Static(data) => HookCall::StaticItem(data),
    }
}

/// The calls that one traversal of `item` makes: the item hook and the hook
/// of its kind for the item itself, then, for a module, the calls of the
/// items in it, in their order.
pub open spec fn calls_of<'ast>(item: ItemKind<'ast>) -> Seq<HookCall<'ast>>
    decreases item,
{
    let own = seq![HookCall::Item(item), call_of_kind(item)];
    match item {
        ItemKind::Mod(data) => own + calls_of_first(data.items@, data.items@.len()),
        _ => own,
    }
}

/// The calls for the first `n` of `items`.
pub open spec fn calls_of_first<'ast>(items: Seq<ItemKind<'ast>>, n: nat) -> Seq<HookCall<'ast>>
    decreases items, n,
{
    if n == 0 || n > items.len() {
        Seq::empty()
    } else {
        calls_of_first(items, (n - 1) as nat) + calls_of(items[n - 1])
    }
}

/// How many nodes `item` holds: itself and, for a module, the nodes of the
/// items in it.
pub open spec fn nodes_in(item: ItemKind) -> nat
    decreases item,
{
    match item {
        ItemKind::Mod(data) => 1 + nodes_in_first(data.items@, data.items@.len()),
        _ => 1,
    }
}

/// How many nodes the first `n` of `items` hold.
pub open spec fn nodes_in_first(items: Seq<ItemKind>, n: nat) -> nat
    decreases items, n,
{
    if n == 0 || n > items.len() {
        0
    } else {
        nodes_in_first(items, (n - 1) as nat) + nodes_in(items[n - 1])
    }
}

/// A traversal makes two calls for every node it holds.
pub proof fn lemma_two_calls_for_each_node(item: ItemKind)
    ensures
        calls_of(item).len() == 2 * nodes_in(item),
    decreases item, 0nat,
{
    match item {
        ItemKind::Mod(data) => {
            lemma_two_calls_for_each_of_first(data.items@, data.items@.len());
        },
        _ => {},
    }
}

/// The traversals of the first `n` of `items` make two calls for every node
/// they hold.
pub proof fn lemma_two_calls_for_each_of_first(items: Seq<ItemKind>, n: nat)
    ensures
        calls_of_first(items, n).len() == 2 * nodes_in_first(items, n),
    decreases items, n,
{
    if n == 0 || n > items.len() {
    } else {
        lemma_two_calls_for_each_of_first(items, (n - 1) as nat);
        lemma_two_calls_for_each_node(items[n - 1]);
    }
}

/// A traversal starts with the two calls for the item itself: the item
/// hook, then the hook of the item's kind. An item that is no module gets
/// no other call.
pub proof fn lemma_own_calls_come_first(item: ItemKind)
    ensures
        calls_of(item).len() >= 2,
        calls_of(item)[0] == HookCall::Item(item),
        calls_of(item)[1] == call_of_kind(item),
        !(item is Mod) ==> calls_of(item).len() == 2,
{
}

fn collect_calls<'ast>(item: ItemKind<'ast>, out: &mut Vec<HookCall<'ast>>)
    ensures
        final(out)@ == old(out)@ + calls_of(item),
    decreases item,
{
    out.push(HookCall::Item(item));
    match item {
        ItemKind::Mod(data) => {
            out.push(HookCall::Mod(data));
            let ghost own = out@;
            assert(own =~= old(out)@ + seq![HookCall::Item(item), call_of_kind(item)]);
            let mut i: usize = 0;
            while i < data.items.len()
                invariant
                    i <= data.items.len(),
                    item == ItemKind::Mod(data),
                    out@ == own + calls_of_first(data.items@, i as nat),
                decreases data.items.len() - i,
            {
                proof {
                    assert(item is Mod && item->Mod_0 == data);
                    assert(decreases_to!(item => item->Mod_0));
                    assert(decreases_to!(*data => data.items));
                    assert(decreases_to!(data.items => data.items[i as int]));
                }
                collect_calls(data.items[i], out);
                assert(out@ =~= own + calls_of_first(data.items@, (i + 1) as nat));
                i += 1;
            }
            assert(out@ =~= old(out)@ + calls_of(item));
        },
        ItemKind::ExternCrate(data) => {
            out.push(HookCall::ExternCrate(data));
            assert(out@ =~= old(out)@ + calls_of(item));
        },
        ItemKind::UseDecl(data) => {
            out.push(HookCall::UseDecl(data));
            assert(out@ =~= old(out)@ + calls_of(item));
        },
        ItemKind::Static(data) => {
            out.push(HookCall::StaticItem(data));
            assert(out@ =~= old(out)@ + calls_of(item));
        },
    }
}

/// The hook calls of one traversal of `root`, in the order of the source.
pub fn hook_calls<'ast>(root: ItemKind<'ast>) -> (r: Vec<HookCall<'ast>>)
    ensures
        r@ == calls_of(root),
{
    let mut out: Vec<HookCall<'ast>> = Vec::new();
    collect_calls(root, &mut out);
    assert(out@ =~= calls_of(root));
    out
}

/// Makes one hook call on `pass`: it calls the hook that `call` names, with
/// `cx` and the node that `call` holds, and leaves `pass` as that hook
/// left it. The contract says so of the reference `told` that the hook was
/// given: it held `pass` as it was, and `pass` is now what the hook made of
/// it.
fn notify<'ast, P: LintPass<'ast>>(pass: &mut P, cx: &'ast AstContext<'ast>, call: HookCall<'ast>)
    ensures
        match call {
            HookCall::Item(item) => exists|told: &mut P| #[trigger]
                call_ensures(P::check_item, (told, cx, item), ()) && mut_ref_current(told) == *old(pass)
                    && mut_ref_future(told) == *final(pass),
            HookCall::Mod(data) => exists|told: &mut P| #[trigger]
                call_ensures(P::check_mod, (told, cx, data), ()) && mut_ref_current(told) == *old(pass)
                    && mut_ref_future(told) == *final(pass),
            HookCall::ExternCrate(data) => exists|told: &mut P| #[trigger]
                call_ensures(P::check_extern_crate, (told, cx, data), ()) && mut_ref_current(told) == *old(pass)
                    && mut_ref_future(told) == *final(pass),
            HookCall::UseDecl(data) => exists|told: &mut P| #[trigger]
                call_ensures(P::check_use_decl, (told, cx, data), ()) && mut_ref_current(told) == *old(pass)
                    && mut_ref_future(told) == *final(pass),
            HookCall::StaticItem(data) => exists|told: &mut P| #[trigger]
                call_ensures(P::check_static_item, (told, cx, data), ()) && mut_ref_current(told) == *old(pass)
                    && mut_ref_future(told) == *final(pass),
        },
        !old(pass).implements(call.spec_hook()) ==> *final(pass) == *old(pass),
{
    match call {
        HookCall::Item(item) => pass.check_item(cx, item),
        HookCall::Mod(data) => pass.check_mod(cx, data),
        HookCall::ExternCrate(data) => pass.check_extern_crate(cx, data),
        HookCall::UseDecl(data) => pass.check_use_decl(cx, data),
        HookCall::StaticItem(data) => pass.check_static_item(cx, data),
    }
}

/// Walks `root` once and tells `pass` of every node in it. Returns how
/// many calls it made. A pass that implements none of the hooks that the
/// walk calls is left as it was.
pub fn run_lint_pass<'ast, P: LintPass<'ast>>(pass: &mut P, cx: &'ast AstContext<'ast>, root: ItemKind<'ast>) -> (r: usize)
    ensures
        r == calls_of(root).len(),
        (forall|i: int| 0 <= i < calls_of(root).len() ==> !old(pass).implements(#[trigger] calls_of(root)[i].spec_hook()))
            ==> *final(pass) == *old(pass),
{
    let calls = hook_calls(root);
    let mut i: usize = 0;
    while i < calls.len()
        invariant
            i <= calls.len(),
            calls@ == calls_of(root),
            (forall|j: int| 0 <= j < calls@.len() ==> !old(pass).implements(#[trigger] calls@[j].spec_hook()))
                ==> *pass == *old(pass),
        decreases calls.len() - i,
    {
        notify(pass, cx, calls[i]);
        i += 1;
    }
    i
}

} // verus!
