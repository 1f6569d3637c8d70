//! Failure taxonomy of the domain core.
//!
//! Every failure that aborts the handling of a message is one of these
//! variants.  `ActionInconnue` is special: the surrounding transport logs
//! it and drops the message without emitting a response.  The numbered
//! rejection codes of the token handshake are not here; they are ordinary
//! responses, carried by [`crate::requetes::RefusJeton`].

use vstd::prelude::*;

verus! {

/// A failure that aborts the current message.
#[derive(Debug)]
pub enum ErreurHebergement {
    /// The identity may not invoke the action; carries a short summary of
    /// the identity for the log.
    AutorisationRefusee { identite_resume: String },
    /// The action name is in neither dispatch table.  Logged, then the
    /// message is dropped: no response is emitted and nothing is retried.
    ActionInconnue { action: String },
    /// The payload does not have the shape the action requires.
    PayloadInvalide,
    /// The message kind does not match the dispatcher it reached.
    MauvaisTypeMessage,
    /// The tenant id of the payload names a root of trust whose validity
    /// window has closed.
    IdentiteExpiree { idmg: String },
    /// The token handshake was attempted by a leaf certificate without the
    /// single permitted infrastructure role.
    RoleNonSupporte,
}

impl ErreurHebergement {
    /// Short description for the log, in place of `Display`: the detail
    /// the variant carries, or nothing.
    pub fn description(&self) -> (r: String)
        ensures
            match *self {
                ErreurHebergement::AutorisationRefusee { identite_resume } => r@
                    == identite_resume@,
                ErreurHebergement::ActionInconnue { action } => r@ == action@,
                ErreurHebergement::IdentiteExpiree { idmg } => r@ == idmg@,
                _ => r@.len() == 0,
            },
    {
        match self {
            ErreurHebergement::AutorisationRefusee { identite_resume } => identite_resume.clone(),
            ErreurHebergement::ActionInconnue { action } => action.clone(),
            ErreurHebergement::PayloadInvalide => String::new(),
            ErreurHebergement::MauvaisTypeMessage => String::new(),
            ErreurHebergement::IdentiteExpiree { idmg } => idmg.clone(),
            ErreurHebergement::RoleNonSupporte => String::new(),
        }
    }
}

} // verus!
