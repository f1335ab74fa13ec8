//! The interface every supported language server presents to the
//! registry: a fixed logical identifier the host requests it under.

use vstd::prelude::*;

verus! {

/// A language server the registry can construct and identify.
pub trait LanguageServer {
    /// The logical identifier the host uses to request this server.
    spec fn server_id_spec() -> Seq<char>;

    /// The identifier as a string, for registry lookups.
    fn server_id() -> (r: String)
        ensures
            r@ == Self::server_id_spec(),
    ;

    /// The fixed argument list this server's own binary is launched with.
    spec fn command_args_spec() -> Seq<Seq<char>>;

    /// The argument list as strings, for building command descriptors.
    fn get_command_args(&self) -> (r: Vec<String>)
        ensures
            r.deep_view() == Self::command_args_spec(),
    ;
}

} // verus!
