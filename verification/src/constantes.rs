//! Names and limits shared by the whole domain.

use vstd::prelude::*;

verus! {

/// Name of the domain; also the issuer written into every minted token.
pub const DOMAINE_NOM: &'static str = "Hebergement";

/// Name of the durable collection of hosting clients.
pub const COLLECTION_CLIENTS_NOM: &'static str = "Hebergement/clients";

/// Name of the durable collection of hosted files.
pub const COLLECTION_FICHIERS_NOM: &'static str = "Hebergement/fichiers";

/// Queue for volatile messages (requests, commands, events).
pub const QUEUE_VOLATILS_NOM: &'static str = "Hebergement/volatils";

/// Queue for triggers.
pub const QUEUE_TRIGGERS_NOM: &'static str = "Hebergement/triggers";

/// Request action: list every hosting client.
pub const REQUETE_LISTE_CLIENTS: &'static str = "getListeClients";

/// Request action: issue a pair of scoped bearer tokens.
pub const REQUETE_TOKEN_JWT: &'static str = "getTokenJwt";

/// Command/transaction action: save a hosting client record.
pub const TRANSACTION_SAUVEGARDER_CLIENT: &'static str = "sauvegarderClient";

/// Transaction action reserved for hosted-file bookkeeping.
pub const TRANSACTION_AJOUTER_FICHIER: &'static str = "ajouterFichier";

/// Delegation attribute that grants global ownership privileges.
pub const DELEGATION_GLOBALE_PROPRIETAIRE: &'static str = "proprietaire";

/// The single infrastructure role allowed to request hosting tokens.
pub const ROLE_CORE: &'static str = "core";

/// Role that marks a private end-user account certificate.
pub const ROLE_COMPTE_PRIVE: &'static str = "compte_prive";

} // verus!
