//! Tenant-hosting domain core: authorization rules, action dispatch,
//! idempotent hosting-record transactions and scoped credential issuance.
//!
//! Every inbound message carries an already-verified identity (roles,
//! security-exchange level, optional delegation and user id).  The core
//! decides whether the identity may invoke an action, routes the action,
//! applies hosting-record mutations idempotently and mints short-lived
//! signed bearer tokens after a multi-step certificate handshake.
//! Transport, storage drivers and certificate validation are external
//! collaborators; they hand the core plain values and take plain values
//! back.

use vstd::prelude::*;

pub mod constantes;
pub mod securite;
pub mod erreurs;
pub mod util;
pub mod autorisation;
pub mod structure_donnees;
pub mod messages;
pub mod transactions;
pub mod commandes;
pub mod requetes;
pub mod json;
pub mod base64url;
pub mod jwt;
pub mod config_ressources;

verus! {

} // verus!
