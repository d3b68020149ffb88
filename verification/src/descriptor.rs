//! Service descriptors and their reified form: a descriptor bound to a base
//! context directory and an optional executor prefix, so repeated connect
//! calls need not repeat that context.

use vstd::prelude::*;

use crate::client::ClientProtocol;
use crate::cmd::{optional_tokens, CommandTemplate};
use crate::paths::{join_under_base, path_join};

verus! {

/// The declarative description of one service: the name of its socket file
/// within the base context directory, and the token lists its launch command
/// line is assembled from.
pub struct ServiceDescriptor {
    /// The name of the service's socket file, relative to the base context
    /// directory.  It must be unique among the services sharing that
    /// directory, or the services collide on one socket.
    pub socket_name: String,
    /// How to assemble the service's launch command line.
    pub command: CommandTemplate,
}

impl ServiceDescriptor {
    /// Well-formedness: the socket name is a nonempty relative file name,
    /// free of path separators.
    pub open spec fn wf(&self) -> bool {
        &&& self.socket_name@.len() > 0
        &&& forall|i: int| 0 <= i < self.socket_name@.len() ==> self.socket_name@[i] != '/'
    }

    /// Resolves the service's named socket path within the given base
    /// context directory.
    pub fn socket_path_in(&self, base_context_directory: &str) -> (r: String)
        requires
            self.wf(),
        ensures
            r@ == path_join(base_context_directory@, self.socket_name@),
    {
        join_under_base(base_context_directory, self.socket_name.as_str())
    }
}

/// The token sequences of an optional owned token list.
pub open spec fn owned_tokens_view(tokens: Option<Vec<String>>) -> Option<Seq<Seq<char>>> {
    match tokens {
        Some(p) => Some(p.deep_view()),
        None => None,
    }
}

/// A service descriptor bound to a base context directory and an optional
/// executor prefix.  Immutable once constructed; many connect calls may
/// reuse it without carrying the context around.
pub struct ReifiedService {
    /// The service this handle stands for.
    pub descriptor: ServiceDescriptor,
    /// The namespace root under which the service's socket lives.
    pub base_context_directory: String,
    /// Command tokens prepended to the service's launch command line, when
    /// given.
    pub executor_prefix: Option<Vec<String>>,
}

impl ReifiedService {
    /// Binds a descriptor to a base context directory, with no executor
    /// prefix.
    pub fn reify_service(descriptor: ServiceDescriptor, base_context_directory: String) -> (r:
        ReifiedService)
        ensures
            r.descriptor == descriptor,
            r.base_context_directory == base_context_directory,
            r.executor_prefix is None,
    {
        ReifiedService { descriptor, base_context_directory, executor_prefix: None }
    }

    /// Binds a descriptor to a base context directory along with an executor
    /// prefix.
    pub fn reify_service_with_executor(
        descriptor: ServiceDescriptor,
        base_context_directory: String,
        executor_prefix: Vec<String>,
    ) -> (r: ReifiedService)
        ensures
            r.descriptor == descriptor,
            r.base_context_directory == base_context_directory,
            r.executor_prefix == Some(executor_prefix),
    {
        ReifiedService { descriptor, base_context_directory, executor_prefix: Some(executor_prefix) }
    }

    /// Resolves the named socket path of the bound service.
    pub fn named_socket_path(&self) -> (r: String)
        requires
            self.descriptor.wf(),
        ensures
            r@ == path_join(self.base_context_directory@, self.descriptor.socket_name@),
    {
        self.descriptor.socket_path_in(self.base_context_directory.as_str())
    }

    /// Assembles the launch command line of the bound service, with the
    /// bound executor prefix and the given liveness-socket path.
    pub fn launch_argv(&self, liveness_path: Option<&String>) -> (r: Vec<String>)
        ensures
            r.deep_view() == self.descriptor.command.argv_spec(
                owned_tokens_view(self.executor_prefix),
                match liveness_path {
                    Some(p) => Some(p@),
                    None => None,
                },
            ),
            r.deep_view().len() >= 1,
    {
        let r = self.descriptor.command.build_argv(self.executor_prefix.as_ref(), liveness_path);
        proof {
            match &self.executor_prefix {
                Some(p) => {
                    assert(optional_tokens(owned_tokens_view(self.executor_prefix))
                        == p.deep_view());
                },
                None => {},
            }
        }
        r
    }

    /// Creates the client activation protocol for one connect call against
    /// the bound service, with the given liveness timeout.
    pub fn connect_protocol(&self, timeout_ms: u64) -> (r: ClientProtocol)
        ensures
            r == ClientProtocol::initial(timeout_ms),
    {
        ClientProtocol::new(timeout_ms)
    }
}

} // verus!
