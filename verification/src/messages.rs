//! The kind and routing of an inbound message, as the transport reports
//! them after envelope verification.

use vstd::prelude::*;

verus! {

/// Kind of an inbound message, with the action name it routes to.
pub enum TypeMessageRecu {
    /// A command: requests a durable mutation.
    Commande { action: String },
    /// A request: reads state or asks for credentials.
    Requete { action: String },
    /// An event: informative, not handled by this core.
    Evenement { action: String },
}

} // verus!
