//! The command side of the dispatcher: admission, routing by action
//! name, and the save-client command with its tenant-id validation.
//!
//! The only command is `sauvegarderClient`.  Any other action name is an
//! unknown action: the caller logs it and drops the message without a
//! response.

use vstd::prelude::*;

use crate::autorisation::CategorieAction;
use crate::autorisation::Identite;
use crate::autorisation::spec_contexte_autorise;
use crate::autorisation::verifier_autorisation;
use crate::erreurs::ErreurHebergement;
use crate::messages::TypeMessageRecu;
use crate::structure_donnees::CollectionClients;
use crate::transactions::TransactionSauvegarderClient;
use crate::transactions::spec_applique_sauvegarde;
use crate::transactions::transaction_sauvegarder_client;

verus! {

/// What the external trust module reports for the tenant id named by a
/// save-client payload: the validity window of the root of trust it
/// resolves to, or that it resolves to none.
pub enum ValidationIdmg {
    /// The tenant id resolves to a root of trust expiring at `expiration`
    /// (epoch seconds).
    Valide { expiration: i64 },
    /// The tenant id does not parse or resolves to no root of trust.
    Invalide,
}

/// Acknowledgment returned by an accepted command.
pub struct ReponseCommande {
    pub ok: bool,
}

/// The save-client command: rejects a tenant id that resolves to no
/// root of trust (`PayloadInvalide`) or to an expired one
/// (`IdentiteExpiree`), and otherwise applies the idempotent upsert and
/// acknowledges.  Nothing is written on a rejection.
pub fn commande_sauvegarder_client(
    collection: &mut CollectionClients,
    commande: TransactionSauvegarderClient,
    validation: &ValidationIdmg,
    now: i64,
) -> (r: Result<Option<ReponseCommande>, ErreurHebergement>)
    requires
        old(collection).inv(),
    ensures
        final(collection).inv(),
        match *validation {
            ValidationIdmg::Invalide => (r matches Err(ErreurHebergement::PayloadInvalide))
                && final(collection)@ == old(collection)@,
            ValidationIdmg::Valide { expiration } => {
                if expiration < now {
                    (r matches Err(ErreurHebergement::IdentiteExpiree { idmg }) && idmg@
                        == commande.idmg@) && final(collection)@ == old(collection)@
                } else {
                    (r matches Ok(Some(rep)) && rep.ok == true) && final(collection)@
                        == spec_applique_sauvegarde(old(collection)@, commande@, now)
                }
            },
        },
{
    match validation {
        ValidationIdmg::Invalide => Err(ErreurHebergement::PayloadInvalide),
        ValidationIdmg::Valide { expiration } => {
            if *expiration < now {
                Err(ErreurHebergement::IdentiteExpiree { idmg: commande.idmg.clone() })
            } else {
                let resultat = transaction_sauvegarder_client(collection, commande, now);
                match resultat {
                    Ok(()) => Ok(Some(ReponseCommande { ok: true })),
                    Err(e) => Err(e),
                }
            }
        },
    }
}

/// Entry point for inbound commands: admission check, then dispatch by
/// action name.  An unknown action fails with `ActionInconnue`, which
/// the caller logs and drops without a response; no handler failure
/// escapes as anything but an `ErreurHebergement`.
pub fn consommer_commande(
    collection: &mut CollectionClients,
    identite: &Identite,
    type_message: &TypeMessageRecu,
    commande: Option<TransactionSauvegarderClient>,
    validation: &ValidationIdmg,
    now: i64,
) -> (r: Result<Option<ReponseCommande>, ErreurHebergement>)
    requires
        old(collection).inv(),
    ensures
        final(collection).inv(),
        spec_contexte_autorise(*identite, CategorieAction::EcritureClient) is None ==> (r matches
        Err(ErreurHebergement::AutorisationRefusee { .. })) && final(collection)@ == old(
            collection,
        )@,
        spec_contexte_autorise(*identite, CategorieAction::EcritureClient) is Some ==> match *type_message {
            TypeMessageRecu::Commande { action } => {
                if action@ != "sauvegarderClient"@ {
                    (r matches Err(ErreurHebergement::ActionInconnue { action: a }) && a@
                        == action@) && final(collection)@ == old(collection)@
                } else if commande is None {
                    (r matches Err(ErreurHebergement::PayloadInvalide)) && final(collection)@
                        == old(collection)@
                } else {
                    match *validation {
                        ValidationIdmg::Invalide => (r matches Err(
                            ErreurHebergement::PayloadInvalide,
                        )) && final(collection)@ == old(collection)@,
                        ValidationIdmg::Valide { expiration } => {
                            if expiration < now {
                                (r matches Err(ErreurHebergement::IdentiteExpiree { idmg }) && idmg@
                                    == commande.unwrap().idmg@) && final(collection)@ == old(
                                    collection,
                                )@
                            } else {
                                (r matches Ok(Some(rep)) && rep.ok == true) && final(collection)@
                                    == spec_applique_sauvegarde(
                                    old(collection)@,
                                    commande.unwrap()@,
                                    now,
                                )
                            }
                        },
                    }
                }
            },
            _ => (r matches Err(ErreurHebergement::MauvaisTypeMessage)) && final(collection)@
                == old(collection)@,
        },
{
    let contexte = verifier_autorisation(identite, CategorieAction::EcritureClient);
    if let Err(e) = contexte {
        return Err(e);
    }

    let action = match type_message {
        TypeMessageRecu::Commande { action } => action,
        _ => {
            return Err(ErreurHebergement::MauvaisTypeMessage);
        },
    };

    if action.eq(&"sauvegarderClient".to_owned()) {
        match commande {
            Some(c) => commande_sauvegarder_client(collection, c, validation, now),
            None => Err(ErreurHebergement::PayloadInvalide),
        }
    } else {
        Err(ErreurHebergement::ActionInconnue { action: action.clone() })
    }
}

} // verus!
