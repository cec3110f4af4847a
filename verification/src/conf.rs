//! Per-module, per-scope configuration values and the merge cascade.
//!
//! A configuration node starts with every field at a tracked unset sentinel,
//! distinct from any valid value. After the host has created one node per
//! (module, scope), the cascade walks the scope tree from the broadest scope
//! to the narrowest: the broadest node resolves its own defaults, and every
//! other node copies each still-unset field from its parent's resolved
//! value. A field the narrower node set itself is left untouched: the most
//! specific value wins. Merging never fails and is idempotent; siblings end
//! up with independent storage.

use vstd::prelude::*;
use crate::bytes::copy_bytes;

verus! {

/// Configuration nesting level, broadest first.
#[derive(PartialEq, Eq, Structural, Clone, Copy, Debug)]
pub enum Scope {
    /// Process-wide.
    Main,
    /// One server.
    Server,
    /// One location: the most specific scope.
    Location,
}

/// One configuration field: either the tracked unset sentinel or a byte
/// string value (a zero-length value is a value, not the sentinel).
#[derive(PartialEq, Eq, Debug)]
pub enum ConfValue {
    /// The unset sentinel.
    Unset,
    /// A set value.
    Text(Vec<u8>),
}

impl View for ConfValue {
    type V = Option<Seq<u8>>;

    open spec fn view(&self) -> Option<Seq<u8>> {
        match self {
            ConfValue::Unset => None,
            ConfValue::Text(v) => Some(v@),
        }
    }
}

impl ConfValue {
    /// True on the unset sentinel.
    pub fn is_unset(&self) -> (r: bool)
        ensures
            r == (self@ is None),
    {
        match self {
            ConfValue::Unset => true,
            ConfValue::Text(_) => false,
        }
    }

    /// An independent copy: equal content, separate storage.
    pub fn duplicate(&self) -> (r: ConfValue)
        ensures
            r@ == self@,
    {
        match self {
            ConfValue::Unset => ConfValue::Unset,
            ConfValue::Text(v) => ConfValue::Text(copy_bytes(v.as_slice())),
        }
    }
}

/// The value of a [`ConfNode`], for contracts.
pub struct ConfNodeView {
    /// The node's scope.
    pub scope: Scope,
    /// The text field: `None` is the unset sentinel.
    pub text: Option<Seq<u8>>,
    /// Whether the node has completed its merge (or resolved its own
    /// defaults, for the broadest scope).
    pub resolved: bool,
}

/// One configuration node: one instance per (module, scope).
#[derive(PartialEq, Eq, Debug)]
pub struct ConfNode {
    /// The node's scope.
    pub scope: Scope,
    /// The module's text directive.
    pub text: ConfValue,
    /// Whether the node has reached the resolved state.
    pub resolved: bool,
}

impl View for ConfNode {
    type V = ConfNodeView;

    open spec fn view(&self) -> ConfNodeView {
        ConfNodeView { scope: self.scope, text: self.text@, resolved: self.resolved }
    }
}

impl ConfNode {
    /// A fresh node of the given scope, every field at the unset sentinel.
    pub fn create(scope: Scope) -> (node: ConfNode)
        ensures
            node@ == (ConfNodeView { scope, text: None, resolved: false }),
    {
        ConfNode { scope, text: ConfValue::Unset, resolved: false }
    }

    /// Stores the directive's value. The token handed in by the parser lives
    /// in a transient arena, so the node keeps its own copy of the bytes.
    pub fn set_text(&mut self, value: &[u8])
        ensures
            final(self)@ == (ConfNodeView { text: Some(value@), ..old(self)@ }),
    {
        self.text = ConfValue::Text(copy_bytes(value));
    }

    /// Reads the text field; the unset sentinel reads as `None`.
    pub fn text(&self) -> (r: Option<&Vec<u8>>)
        ensures
            match r {
                Some(v) => self@.text == Some(v@),
                None => self@.text is None,
            },
    {
        match &self.text {
            ConfValue::Unset => None,
            ConfValue::Text(v) => Some(v),
        }
    }
}

/// The capability pair the cascade walks with: resolve your own defaults (at
/// the broadest scope) and merge against a resolved parent. Implementations
/// must prove that merging settles every field (`lemma_merged_resolved`) and
/// that merging twice against the same parent changes nothing more than
/// merging once (`lemma_merge_idempotent`).
pub trait Merge: View + Sized {
    /// The node has left the created state: every field carries a value.
    spec fn resolved(v: Self::V) -> bool;

    /// The node after copying each unset field from a resolved parent.
    spec fn merged(node: Self::V, parent: Self::V) -> Self::V;

    /// The node after resolving its own defaults, for the scope with no
    /// parent.
    spec fn self_resolved(node: Self::V) -> Self::V;

    /// Merging against a resolved parent resolves the node.
    proof fn lemma_merged_resolved(node: Self::V, parent: Self::V)
        requires
            Self::resolved(parent),
        ensures
            Self::resolved(Self::merged(node, parent)),
    ;

    /// Law: merging is idempotent — a second merge against the same parent
    /// yields exactly the state of the first.
    proof fn lemma_merge_idempotent(node: Self::V, parent: Self::V)
        requires
            Self::resolved(parent),
        ensures
            Self::merged(Self::merged(node, parent), parent) == Self::merged(node, parent),
    ;

    /// Resolving one's own defaults resolves the node.
    proof fn lemma_self_resolved(node: Self::V)
        ensures
            Self::resolved(Self::self_resolved(node)),
    ;

    /// Copies every field still unset in `self` from the parent's resolved
    /// value; fields already set win. A pure structural copy: it cannot
    /// fail.
    fn merge(&mut self, prev: &Self)
        requires
            Self::resolved(prev@),
        ensures
            final(self)@ == Self::merged(old(self)@, prev@),
    ;

    /// Fills every field still unset with the module's default; for the
    /// broadest scope, which has no parent to merge against.
    fn resolve_defaults(&mut self)
        ensures
            final(self)@ == Self::self_resolved(old(self)@),
    ;
}

/// A module with no configuration at some scope: merging is trivial.
impl Merge for () {
    open spec fn resolved(v: ()) -> bool {
        true
    }

    open spec fn merged(node: (), parent: ()) -> () {
        ()
    }

    open spec fn self_resolved(node: ()) -> () {
        ()
    }

    proof fn lemma_merged_resolved(node: (), parent: ()) {
    }

    proof fn lemma_merge_idempotent(node: (), parent: ()) {
    }

    proof fn lemma_self_resolved(node: ()) {
    }

    fn merge(&mut self, prev: &Self) {
    }

    fn resolve_defaults(&mut self) {
    }
}

impl Merge for ConfNode {
    open spec fn resolved(v: ConfNodeView) -> bool {
        v.resolved && v.text is Some
    }

    open spec fn merged(node: ConfNodeView, parent: ConfNodeView) -> ConfNodeView {
        ConfNodeView {
            scope: node.scope,
            text: if node.text is Some {
                node.text
            } else {
                parent.text
            },
            resolved: true,
        }
    }

    open spec fn self_resolved(node: ConfNodeView) -> ConfNodeView {
        ConfNodeView {
            scope: node.scope,
            text: if node.text is Some {
                node.text
            } else {
                Some(Seq::empty())
            },
            resolved: true,
        }
    }

    proof fn lemma_merged_resolved(node: ConfNodeView, parent: ConfNodeView) {
    }

    proof fn lemma_merge_idempotent(node: ConfNodeView, parent: ConfNodeView) {
    }

    proof fn lemma_self_resolved(node: ConfNodeView) {
    }

    fn merge(&mut self, prev: &Self) {
        if self.text.is_unset() {
            self.text = prev.text.duplicate();
        }
        self.resolved = true;
    }

    fn resolve_defaults(&mut self) {
        if self.text.is_unset() {
            self.text = ConfValue::Text(Vec::new());
        }
        self.resolved = true;
    }
}

/// One server scope and the location scopes nested in it.
pub struct ServerScope<T> {
    /// The server-scope node.
    pub server: T,
    /// The location-scope nodes of this server, each with this server as its
    /// parent.
    pub locations: Vec<T>,
}

/// The whole scope tree of one module: the broadest node and the server
/// scopes under it.
pub struct ConfTree<T> {
    /// The process-wide node.
    pub main: T,
    /// The server scopes.
    pub servers: Vec<ServerScope<T>>,
}

/// Resolves the whole tree, broadest scope first: the main node resolves its
/// own defaults, every server merges against the resolved main node, and
/// every location merges against its own resolved server. A child is merged
/// only after its parent is resolved, and two siblings merged against the
/// same parent hold independent storage: the result of each node depends
/// only on its own prior value and its ancestors'.
pub fn cascade<T: Merge>(tree: ConfTree<T>) -> (r: ConfTree<T>)
    ensures
        r.main@ == T::self_resolved(tree.main@),
        r.servers@.len() == tree.servers@.len(),
        forall|i: int|
            0 <= i < r.servers@.len() ==> (#[trigger] r.servers@[i]).server@ == T::merged(
                tree.servers@[i].server@,
                T::self_resolved(tree.main@),
            ),
        forall|i: int|
            0 <= i < r.servers@.len() ==> (#[trigger] r.servers@[i]).locations@.len()
                == tree.servers@[i].locations@.len(),
        forall|i: int, j: int|
            0 <= i < r.servers@.len() && 0 <= j < r.servers@[i].locations@.len() ==> (#[trigger] r.servers@[i].locations@[j])@ == T::merged(
                tree.servers@[i].locations@[j]@,
                T::merged(tree.servers@[i].server@, T::self_resolved(tree.main@)),
            ),
{
    let ghost main0 = tree.main@;
    let ghost orig = tree.servers@;
    let ConfTree { mut main, servers } = tree;
    main.resolve_defaults();
    proof {
        T::lemma_self_resolved(main0);
    }
    let mut rest = servers;
    let mut done: Vec<ServerScope<T>> = Vec::new();
    while rest.len() > 0
        invariant
            main@ == T::self_resolved(main0),
            T::resolved(main@),
            done@.len() + rest@.len() == orig.len(),
            rest@ =~= orig.subrange(done@.len() as int, orig.len() as int),
            forall|i: int|
                0 <= i < done@.len() ==> (#[trigger] done@[i]).server@ == T::merged(
                    orig[i].server@,
                    T::self_resolved(main0),
                ),
            forall|i: int|
                0 <= i < done@.len() ==> (#[trigger] done@[i]).locations@.len()
                    == orig[i].locations@.len(),
            forall|i: int, j: int|
                0 <= i < done@.len() && 0 <= j < done@[i].locations@.len() ==> (#[trigger] done@[i].locations@[j])@ == T::merged(
                    orig[i].locations@[j]@,
                    T::merged(orig[i].server@, T::self_resolved(main0)),
                ),
        decreases rest@.len(),
    {
        let ghost k = done@.len() as int;
        let s = rest.remove(0);
        proof {
            assert(s == orig[k]);
        }
        let ServerScope { server: mut server_node, locations } = s;
        server_node.merge(&main);
        proof {
            T::lemma_merged_resolved(orig[k].server@, main@);
        }
        let ghost lorig = orig[k].locations@;
        let mut lrest = locations;
        let mut ldone: Vec<T> = Vec::new();
        while lrest.len() > 0
            invariant
                server_node@ == T::merged(orig[k].server@, T::self_resolved(main0)),
                T::resolved(server_node@),
                ldone@.len() + lrest@.len() == lorig.len(),
                lrest@ =~= lorig.subrange(ldone@.len() as int, lorig.len() as int),
                forall|j: int|
                    0 <= j < ldone@.len() ==> (#[trigger] ldone@[j])@ == T::merged(
                        lorig[j]@,
                        T::merged(orig[k].server@, T::self_resolved(main0)),
                    ),
            decreases lrest@.len(),
        {
            let ghost m = ldone@.len() as int;
            let mut l = lrest.remove(0);
            proof {
                assert(l == lorig[m]);
            }
            l.merge(&server_node);
            ldone.push(l);
        }
        proof {
            assert(ldone@.len() == lorig.len());
        }
        done.push(ServerScope { server: server_node, locations: ldone });
    }
    proof {
        assert(done@.len() == orig.len());
    }
    ConfTree { main, servers: done }
}

/// Law: a value set at the broadest scope reaches every scope below that
/// leaves the field unset — after the cascade, a server with the field unset
/// and a location with the field unset both resolve to the main node's
/// value.
pub proof fn lemma_cascade_inherits_unset(
    main: ConfNodeView,
    server: ConfNodeView,
    location: ConfNodeView,
    x: Seq<u8>,
)
    requires
        main.text == Some(x),
        server.text is None,
        location.text is None,
    ensures
        ConfNode::merged(server, ConfNode::self_resolved(main)).text == Some(x),
        ConfNode::merged(
            location,
            ConfNode::merged(server, ConfNode::self_resolved(main)),
        ).text == Some(x),
{
}

/// Law: a field set at a narrow scope wins — whatever any broader scope
/// holds, the cascade leaves an explicitly set location value untouched.
pub proof fn lemma_cascade_override(location: ConfNodeView, parent: ConfNodeView, y: Seq<u8>)
    requires
        location.text == Some(y),
    ensures
        ConfNode::merged(location, parent).text == Some(y),
{
}

/// The registry the host threads through configuration calls: one node per
/// module and scope, resolved by module index. The host hands back only the
/// index; the registry returns the typed node, so no caller reinterprets an
/// opaque blob.
pub struct ConfContext {
    /// Process-wide nodes, indexed by module.
    pub main_conf: Vec<ConfNode>,
    /// Server-scope nodes, indexed by module.
    pub srv_conf: Vec<ConfNode>,
    /// Location-scope nodes, indexed by module.
    pub loc_conf: Vec<ConfNode>,
}

/// The module's process-wide node, if the module is registered.
pub fn ngx_http_conf_get_module_main_conf(cf: &ConfContext, module_index: usize) -> (r: Option<
    &ConfNode,
>)
    ensures
        module_index < cf.main_conf@.len() ==> r == Some(&cf.main_conf@[module_index as int]),
        module_index >= cf.main_conf@.len() ==> r is None,
{
    if module_index < cf.main_conf.len() {
        Some(&cf.main_conf[module_index])
    } else {
        None
    }
}

/// The module's server-scope node, if the module is registered.
pub fn ngx_http_conf_get_module_srv_conf(cf: &ConfContext, module_index: usize) -> (r: Option<
    &ConfNode,
>)
    ensures
        module_index < cf.srv_conf@.len() ==> r == Some(&cf.srv_conf@[module_index as int]),
        module_index >= cf.srv_conf@.len() ==> r is None,
{
    if module_index < cf.srv_conf.len() {
        Some(&cf.srv_conf[module_index])
    } else {
        None
    }
}

/// The module's location-scope node, if the module is registered.
pub fn ngx_http_conf_get_module_loc_conf(cf: &ConfContext, module_index: usize) -> (r: Option<
    &ConfNode,
>)
    ensures
        module_index < cf.loc_conf@.len() ==> r == Some(&cf.loc_conf@[module_index as int]),
        module_index >= cf.loc_conf@.len() ==> r is None,
{
    if module_index < cf.loc_conf.len() {
        Some(&cf.loc_conf[module_index])
    } else {
        None
    }
}

} // verus!
