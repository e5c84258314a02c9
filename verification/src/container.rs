//! The routing nodes of the container tree.
//!
//! Every concrete adapter is one variant of [`ContainerNode`]; a shared,
//! reference-counted node stands wherever the tree links to a parent or a
//! shell. Cloning such a link shares the same snapshot, mirroring the
//! copy-on-write value semantics of the rest of the core.

use vstd::prelude::*;

use crate::application::{AppInstance, AppInstanceView};
use crate::bash::Bash;
use crate::compose::DockerCompose;
use crate::docker_container::DockerContainer;
use crate::error::{Failure, FailureView, FoundryError};
use crate::executor::ExecutorTrait;
use crate::message::{Message, MessageView};
use crate::query::{AppQuery, AppQueryView};
use crate::version::{spec_dec_digits, u64_to_string};
use std::rc::Rc;

verus! {

/// A routing node: one of the concrete containers of the tree.
#[derive(Debug)]
pub enum ContainerNode {
    Bash(Bash),
    Compose(DockerCompose),
    Container(DockerContainer),
}

/// Relies on `Rc::clone`: the clone shares the same allocation, so it carries
/// the same value.
#[verifier::external_body]
pub fn clone_node_rc(v: &Rc<ContainerNode>) -> (res: Rc<ContainerNode>)
    ensures
        res == *v,
{
    v.clone()
}

/// A copy of an optional link that shares the same node.
pub fn clone_link(o: &Option<Rc<ContainerNode>>) -> (r: Option<Rc<ContainerNode>>)
    ensures
        r == *o,
{
    match o {
        None => None,
        Some(rc) => Some(clone_node_rc(rc)),
    }
}

/// The mathematical value of a list-of-instances result.
pub open spec fn spec_find_result(r: Result<Vec<AppInstance>, Failure>) -> Result<
    Seq<AppInstanceView>,
    FailureView,
> {
    match r {
        Ok(v) => Ok(v.deep_view()),
        Err(f) => Err(f@),
    }
}

/// The mathematical value of a raw-output result.
pub open spec fn spec_str_result(r: Result<String, Failure>) -> Result<Seq<char>, FailureView> {
    match r {
        Ok(s) => Ok(s@),
        Err(f) => Err(f@),
    }
}

/// The context reported when a query matched nothing.
pub open spec fn spec_not_found_context(name: Seq<char>) -> Seq<char> {
    "No instances matching your query of "@ + name + " have been registered"@
}

/// The context reported when a query matched more than one instance.
pub open spec fn spec_multiple_context(n: nat, name: Seq<char>) -> Seq<char> {
    spec_dec_digits(n) + " instances matching your definition for "@ + name
        + " have been registered. Please narrow your search criteria"@
}

/// The uniqueness rule applied to what `find` reported: zero instances fail
/// with `NotFound`, exactly one is returned, and two or more fail with
/// `MultipleMatches` — ambiguity is surfaced, never resolved silently.
pub open spec fn spec_select_one(
    found: Seq<AppInstanceView>,
    qname: Seq<char>,
    r: Result<AppInstance, Failure>,
) -> bool {
    if found.len() == 0 {
        &&& r is Err
        &&& r->Err_0@.error == FoundryError::NotFound
        &&& r->Err_0@.context == spec_not_found_context(qname)
    } else if found.len() == 1 {
        &&& r is Ok
        &&& r->Ok_0@ == found[0]
    } else {
        &&& r is Err
        &&& r->Err_0@.error == FoundryError::MultipleMatches
        &&& r->Err_0@.context == spec_multiple_context(found.len(), qname)
    }
}

/// For every container and query: when `find` reports zero instances,
/// `find_one` fails with `NotFound`; when it reports exactly one, `find_one`
/// returns that same instance; when it reports two or more, `find_one` fails
/// with `MultipleMatches`.
pub proof fn lemma_find_one_uniqueness(
    found: Seq<AppInstanceView>,
    qname: Seq<char>,
    r: Result<AppInstance, Failure>,
)
    requires
        spec_select_one(found, qname, r),
    ensures
        found.len() == 0 ==> r is Err && r->Err_0@.error == FoundryError::NotFound,
        found.len() == 1 ==> r is Ok && r->Ok_0@ == found[0],
        found.len() >= 2 ==> r is Err && r->Err_0@.error == FoundryError::MultipleMatches,
{
}

/// The capability interface every routing node satisfies: discover children
/// matching a query, resolve a query to exactly one child, forward a message
/// to a named child, and list already-discovered children. What `find`,
/// `forward` and `cached_apps` promise is adapter-specific, stated by each
/// adapter's spec methods; `find_one` is built once, here, on top of `find`.
pub trait ContainerTrait: Sized {
    /// What this adapter's `find` promises of its result.
    spec fn find_post(
        &self,
        query: AppQueryView,
        r: Result<Seq<AppInstanceView>, FailureView>,
    ) -> bool;

    /// Discover every known or discoverable child matching the query. Zero
    /// matches is a successful, empty result — never a failure.
    fn find<E: ExecutorTrait>(&self, exec: &mut E, query: &AppQuery) -> (r: Result<
        Vec<AppInstance>,
        Failure,
    >)
        requires
            query.wf(),
        ensures
            self.find_post(query@, spec_find_result(r)),
    ;

    /// What this adapter's `forward` promises of its result.
    spec fn forward_post(
        &self,
        to: AppInstanceView,
        message: MessageView,
        r: Result<Seq<char>, FailureView>,
    ) -> bool;

    /// Deliver the message to the child identified by `to` and return
    /// whatever that child's execution produced. A container that cannot
    /// reach the target must fail; it never silently drops the message.
    fn forward<E: ExecutorTrait>(&self, exec: &mut E, to: &AppInstance, message: &Message) -> (r:
        Result<String, Failure>)
        ensures
            self.forward_post(to@, message@, spec_str_result(r)),
    ;

    /// What this adapter's `cached_apps` promises of its result.
    spec fn cached_post(&self, r: Result<Seq<AppInstanceView>, FailureView>) -> bool;

    /// List only the already-resolved children; no new discovery.
    fn cached_apps(&self) -> (r: Result<Vec<AppInstance>, Failure>)
        ensures
            self.cached_post(spec_find_result(r)),
    ;

    /// The stable rendering of this container's identity.
    spec fn spec_name(&self) -> Seq<char>;

    /// The name and version of this container, for diagnostics.
    fn get_name(&self) -> (r: String)
        ensures
            r@ == self.spec_name(),
    ;

    /// Resolve the query to exactly one child: call `find` and apply the
    /// uniqueness rule to whatever it reported. Built once, on top of
    /// `find`, and inherited by every adapter.
    fn find_one<E: ExecutorTrait>(&self, exec: &mut E, query: &AppQuery) -> (r: Result<
        AppInstance,
        Failure,
    >)
        requires
            query.wf(),
        ensures
            ({
                ||| exists|found: Seq<AppInstanceView>|
                    #[trigger] self.find_post(query@, Ok(found)) && spec_select_one(
                        found,
                        query@.name,
                        r,
                    )
                ||| (r is Err && self.find_post(query@, Err(r->Err_0@)))
            }),
    {
        let all = match self.find(exec, query) {
            Ok(v) => v,
            Err(f) => {
                return Err(f);
            },
        };
        let ghost found = all.deep_view();
        if all.len() == 0 {
            let mut ctx = String::from_str("No instances matching your query of ");
            ctx.append(query.name.as_str());
            ctx.append(" have been registered");
            let res = Err(Failure::new(FoundryError::NotFound, ctx));
            proof {
                assert(ctx@ =~= spec_not_found_context(query@.name));
                assert(self.find_post(query@, Ok(found)) && spec_select_one(
                    found,
                    query@.name,
                    res,
                ));
            }
            res
        } else if all.len() == 1 {
            let res = Ok(all[0].duplicate());
            proof {
                assert(self.find_post(query@, Ok(found)) && spec_select_one(
                    found,
                    query@.name,
                    res,
                ));
            }
            res
        } else {
            let mut ctx = u64_to_string(all.len() as u64);
            ctx.append(" instances matching your definition for ");
            ctx.append(query.name.as_str());
            ctx.append(" have been registered. Please narrow your search criteria");
            let res = Err(Failure::new(FoundryError::MultipleMatches, ctx));
            proof {
                assert(ctx@ =~= spec_multiple_context(found.len(), query@.name));
                assert(self.find_post(query@, Ok(found)) && spec_select_one(
                    found,
                    query@.name,
                    res,
                ));
            }
            res
        }
    }
}

/// Switching `find_all` on never changes what any routing node's `find`
/// promises: discovery depends on the query's name alone, and the flag only
/// decides whether a multi-match is rejected at the `find_one` boundary.
pub proof fn lemma_find_all_transparent(
    node: ContainerNode,
    q: AppQueryView,
    r: Result<Seq<AppInstanceView>, FailureView>,
)
    ensures
        node.find_post(q.with_find_all(), r) == node.find_post(q, r),
{
    assert(q.with_find_all().name == q.name);
    match node {
        ContainerNode::Compose(c) => {
            if c.config is Some {
                crate::compose::lemma_find_all_same_matches(c.config->0@.names, q);
            }
        },
        _ => {},
    }
}

/// Every routing node renders its identity the same way: its fixed module
/// title followed by the instance's version in parentheses, with
/// `Unknown Version` standing in when no version is known — for every
/// adapter, not just one.
pub proof fn lemma_names_render_uniformly(node: ContainerNode)
    ensures
        match node {
            ContainerNode::Bash(b) => node.spec_name()
                == crate::application::spec_render_name("Bash"@, b.instance@.version),
            ContainerNode::Compose(c) => node.spec_name()
                == crate::application::spec_render_name("Docker Compose"@, c.instance@.version),
            ContainerNode::Container(d) => node.spec_name()
                == crate::application::spec_render_name("Docker Container"@, d.instance@.version),
        },
{
}

impl ContainerNode {
    /// The wrapped container's identity for diagnostics.
    pub fn node_name(&self) -> (r: String)
        ensures
            r@ == self.spec_name(),
    {
        match self {
            ContainerNode::Bash(b) => b.get_name(),
            ContainerNode::Compose(c) => c.get_name(),
            ContainerNode::Container(d) => d.get_name(),
        }
    }
}

impl ContainerTrait for ContainerNode {
    open spec fn find_post(
        &self,
        query: AppQueryView,
        r: Result<Seq<AppInstanceView>, FailureView>,
    ) -> bool {
        match self {
            ContainerNode::Bash(b) => b.find_post(query, r),
            ContainerNode::Compose(c) => c.find_post(query, r),
            ContainerNode::Container(d) => d.find_post(query, r),
        }
    }

    /// Discover through whichever concrete container this node wraps.
    fn find<E: ExecutorTrait>(&self, exec: &mut E, query: &AppQuery) -> (r: Result<
        Vec<AppInstance>,
        Failure,
    >) {
        match self {
            ContainerNode::Bash(b) => b.find(exec, query),
            ContainerNode::Compose(c) => c.find(exec, query),
            ContainerNode::Container(d) => d.find(exec, query),
        }
    }

    open spec fn forward_post(
        &self,
        to: AppInstanceView,
        message: MessageView,
        r: Result<Seq<char>, FailureView>,
    ) -> bool {
        match self {
            ContainerNode::Bash(b) => b.forward_post(to, message, r),
            ContainerNode::Compose(c) => c.forward_post(to, message, r),
            ContainerNode::Container(d) => d.forward_post(to, message, r),
        }
    }

    /// Forward through whichever concrete container this node wraps.
    fn forward<E: ExecutorTrait>(&self, exec: &mut E, to: &AppInstance, message: &Message) -> (r:
        Result<String, Failure>) {
        let res = match self {
            ContainerNode::Bash(b) => {
                let r = b.forward(exec, to, message);
                proof {
                    assert(b.forward_post(to@, message@, spec_str_result(r)));
                }
                r
            },
            ContainerNode::Compose(c) => {
                let r = c.forward(exec, to, message);
                proof {
                    assert(c.forward_post(to@, message@, spec_str_result(r)));
                }
                r
            },
            ContainerNode::Container(d) => {
                let r = d.forward(exec, to, message);
                proof {
                    assert(d.forward_post(to@, message@, spec_str_result(r)));
                }
                r
            },
        };
        proof {
            assert(self.forward_post(to@, message@, spec_str_result(res)));
        }
        res
    }

    open spec fn cached_post(&self, r: Result<Seq<AppInstanceView>, FailureView>) -> bool {
        match self {
            ContainerNode::Bash(b) => b.cached_post(r),
            ContainerNode::Compose(c) => c.cached_post(r),
            ContainerNode::Container(d) => d.cached_post(r),
        }
    }

    /// List through whichever concrete container this node wraps.
    fn cached_apps(&self) -> (r: Result<Vec<AppInstance>, Failure>) {
        match self {
            ContainerNode::Bash(b) => b.cached_apps(),
            ContainerNode::Compose(c) => c.cached_apps(),
            ContainerNode::Container(d) => d.cached_apps(),
        }
    }

    open spec fn spec_name(&self) -> Seq<char> {
        match self {
            ContainerNode::Bash(b) => ContainerTrait::spec_name(b),
            ContainerNode::Compose(c) => ContainerTrait::spec_name(c),
            ContainerNode::Container(d) => ContainerTrait::spec_name(d),
        }
    }

    /// The identity of whichever concrete container this node wraps.
    fn get_name(&self) -> (r: String) {
        match self {
            ContainerNode::Bash(b) => ContainerTrait::get_name(b),
            ContainerNode::Compose(c) => ContainerTrait::get_name(c),
            ContainerNode::Container(d) => ContainerTrait::get_name(d),
        }
    }
}

} // verus!
