//! Coarse admission rule over a verified identity and an action category.
//!
//! An identity is admitted when any of these holds, in this precedence:
//! 1. it carries the recognized private-account role together with an end
//!    user id -- admitted as a user-scoped context;
//! 2. its highest security-exchange level reaches the category's minimum
//!    threshold;
//! 3. it carries the global ownership delegation -- admitted as owner
//!    context regardless of exchange level.
//!
//! The admission rule is a pure function: no I/O, no side effects.  Handlers whose
//! requirement is stricter than their category default re-check on their
//! own (see [`crate::requetes`]).

use vstd::prelude::*;

use crate::erreurs::ErreurHebergement;
use crate::securite::Securite;
use crate::securite::niveau_maximal;
use crate::securite::spec_niveau_maximal;
use crate::util::contient_chaine;
use crate::util::spec_contient_chaine;

verus! {

/// A verified identity, as the external trust module reports it.
/// Read-only to the core; it lives for one message and is never persisted.
pub struct Identite {
    /// Fingerprint of the leaf certificate.
    pub fingerprint: String,
    /// Roles enveloped in the certificate.
    pub roles: Vec<String>,
    /// Security-exchange levels the certificate asserts.
    pub exchanges: Vec<Securite>,
    /// Global ownership delegation attribute, when present.
    pub delegation_globale: Option<String>,
    /// Tenant id enveloped in the certificate, when present.
    pub idmg: Option<String>,
    /// End-user id enveloped in the certificate, when present.
    pub user_id: Option<String>,
}

impl Identite {
    /// The identity carries the recognized private-account role.
    pub open spec fn spec_role_prive(self) -> bool {
        spec_contient_chaine(self.roles@, "compte_prive"@)
    }

    /// The identity carries the global ownership delegation.
    pub open spec fn spec_delegation_proprietaire(self) -> bool {
        match self.delegation_globale {
            Some(d) => d@ == "proprietaire"@,
            None => false,
        }
    }

    /// Highest exchange-level rank the identity asserts; 0 without any.
    pub open spec fn spec_niveau(self) -> int {
        spec_niveau_maximal(self.exchanges@)
    }
}

/// The category of an action, deciding the minimum exchange level of the admission rule.
#[derive(Clone, Copy, Debug, PartialEq, Eq, Structural)]
pub enum CategorieAction {
    /// Persisting hosting-client configuration.
    EcritureClient,
    /// Reading the list of hosting clients.
    LectureClients,
    /// Requesting scoped bearer tokens; admitted through the handshake instead.
    EmissionJeton,
}

/// Minimum exchange-level rank per category: writing takes the protected
/// tier, listing the highest tier, token issuance the lowest.
pub open spec fn spec_seuil_categorie(categorie: CategorieAction) -> int {
    match categorie {
        CategorieAction::EcritureClient => 3,
        CategorieAction::LectureClients => 4,
        CategorieAction::EmissionJeton => 1,
    }
}

/// Executable threshold, equal to [`spec_seuil_categorie`].
pub fn seuil_categorie(categorie: CategorieAction) -> (n: u8)
    ensures
        n as int == spec_seuil_categorie(categorie),
{
    match categorie {
        CategorieAction::EcritureClient => 3,
        CategorieAction::LectureClients => 4,
        CategorieAction::EmissionJeton => 1,
    }
}

/// How an admitted identity was admitted.
pub enum ContexteAutorise {
    /// Admitted through the private-account role; carries the user id.
    Usager { user_id: String },
    /// Admitted through the exchange level.
    Echange,
    /// Admitted through the global ownership delegation.
    Delegation,
}

/// The context the admission rule owes for `identite` and `categorie`, or `None`
/// when the identity must be turned away.
pub open spec fn spec_contexte_autorise(identite: Identite, categorie: CategorieAction) -> Option<
    ContexteAutorise,
> {
    if identite.spec_role_prive() && identite.user_id is Some {
        Some(ContexteAutorise::Usager { user_id: identite.user_id.unwrap() })
    } else if identite.spec_niveau() >= spec_seuil_categorie(categorie) {
        Some(ContexteAutorise::Echange)
    } else if identite.spec_delegation_proprietaire() {
        Some(ContexteAutorise::Delegation)
    } else {
        None
    }
}

/// The admission rule.  Admits exactly the identities for which
/// [`spec_contexte_autorise`] owes a context, with that context; everyone
/// else is turned away with `AutorisationRefusee`.
pub fn verifier_autorisation(identite: &Identite, categorie: CategorieAction) -> (r: Result<
    ContexteAutorise,
    ErreurHebergement,
>)
    ensures
        match spec_contexte_autorise(*identite, categorie) {
            Some(contexte) => r matches Ok(c) && c == contexte,
            None => r matches Err(ErreurHebergement::AutorisationRefusee { .. }),
        },
{
    let role_prive = contient_chaine(&identite.roles, &"compte_prive".to_owned());
    if role_prive {
        if let Some(user_id) = &identite.user_id {
            return Ok(ContexteAutorise::Usager { user_id: user_id.clone() });
        }
    }
    let niveau = niveau_maximal(&identite.exchanges);
    if niveau >= seuil_categorie(categorie) {
        return Ok(ContexteAutorise::Echange);
    }
    let delegation = match &identite.delegation_globale {
        Some(d) => d.eq(&"proprietaire".to_owned()),
        None => false,
    };
    if delegation {
        return Ok(ContexteAutorise::Delegation);
    }
    Err(
        ErreurHebergement::AutorisationRefusee {
            identite_resume: identite.fingerprint.clone(),
        },
    )
}

} // verus!
