//! The request side of the dispatcher: admission, routing by action
//! name, the client-listing handler and the token-issuance handshake.
//!
//! The two request actions are `getListeClients` and `getTokenJwt`.  Any
//! other action name is an unknown action: the caller logs it and drops
//! the message without a response.

use vstd::prelude::*;

use crate::autorisation::CategorieAction;
use crate::autorisation::Identite;
use crate::autorisation::spec_contexte_autorise;
use crate::autorisation::verifier_autorisation;
use crate::erreurs::ErreurHebergement;
use crate::jwt::CleSignature;
use crate::jwt::generer_jwt_hebergement;
use crate::jwt::spec_claims_jeton;
use crate::jwt::spec_jeton_chaine;
use crate::messages::TypeMessageRecu;
use crate::structure_donnees::ClientHebergementRow;
use crate::structure_donnees::ClientModele;
use crate::structure_donnees::CollectionClients;
use crate::structure_donnees::QuotaClient;
use crate::structure_donnees::cloner_chaines_opt;
use crate::structure_donnees::spec_client;
use crate::util::contient_chaine;
use crate::util::spec_contient_chaine;

verus! {

/// Payload of the client-listing request; it carries nothing.
pub struct RequeteListeClients {}

/// One row of the client-listing response: the hosting record minus its
/// encrypted payload, activity flag and clocks.
pub struct ReponseClientRow {
    pub idmg: String,
    pub descriptif: Option<String>,
    pub roles: Option<Vec<String>>,
    pub domaines: Option<Vec<String>>,
    pub contact: Option<String>,
    pub information: Option<String>,
    /// Epoch seconds.
    pub expiration: Option<i64>,
    pub quota: Option<QuotaClient>,
}

/// Mathematical model of one response row.
pub ghost struct ReponseClientModele {
    pub idmg: Seq<char>,
    pub descriptif: Option<Seq<char>>,
    pub roles: Option<Seq<Seq<char>>>,
    pub domaines: Option<Seq<Seq<char>>>,
    pub contact: Option<Seq<char>>,
    pub information: Option<Seq<char>>,
    pub expiration: Option<i64>,
    pub quota: Option<QuotaClient>,
}

impl View for ReponseClientRow {
    type V = ReponseClientModele;

    open spec fn view(&self) -> ReponseClientModele {
        ReponseClientModele {
            idmg: self.idmg@,
            descriptif: self.descriptif.deep_view(),
            roles: self.roles.deep_view(),
            domaines: self.domaines.deep_view(),
            contact: self.contact.deep_view(),
            information: self.information.deep_view(),
            expiration: self.expiration,
            quota: self.quota,
        }
    }
}

impl DeepView for ReponseClientRow {
    type V = ReponseClientModele;

    open spec fn deep_view(&self) -> ReponseClientModele {
        self.view()
    }
}

/// The response row a hosting record yields: every field carried over,
/// the encrypted payload, activity flag and clocks left out.
pub open spec fn spec_reponse_ligne(client: ClientModele) -> ReponseClientModele {
    ReponseClientModele {
        idmg: client.idmg,
        descriptif: client.descriptif,
        roles: client.roles,
        domaines: client.domaines,
        contact: client.contact,
        information: client.information,
        expiration: client.expiration,
        quota: client.quota,
    }
}

impl From<ClientHebergementRow> for ReponseClientRow {
    fn from(value: ClientHebergementRow) -> (r: ReponseClientRow) {
        ReponseClientRow {
            idmg: value.idmg,
            descriptif: value.descriptif,
            roles: value.roles,
            domaines: value.domaines,
            contact: value.contact,
            information: value.information,
            expiration: value.expiration,
            quota: value.quota,
        }
    }
}

impl vstd::std_specs::convert::FromSpecImpl<ClientHebergementRow> for ReponseClientRow {
    open spec fn obeys_from_spec() -> bool {
        true
    }

    open spec fn from_spec(v: ClientHebergementRow) -> ReponseClientRow {
        ReponseClientRow {
            idmg: v.idmg,
            descriptif: v.descriptif,
            roles: v.roles,
            domaines: v.domaines,
            contact: v.contact,
            information: v.information,
            expiration: v.expiration,
            quota: v.quota,
        }
    }
}

/// The client-listing response.
pub struct ReponseListeClients {
    pub ok: bool,
    pub err: Option<String>,
    pub clients: Vec<ReponseClientRow>,
}

/// Whether an identity may list the hosting clients: the handler demands
/// the top exchange level even where admission went through a lower
/// tier, and admits the global ownership delegation.
pub open spec fn spec_autorise_liste(identite: Identite) -> bool {
    identite.spec_niveau() >= 4 || identite.spec_delegation_proprietaire()
}

/// The client-listing handler: an identity below the top exchange level
/// and without the ownership delegation is turned away; otherwise the
/// response lists every hosting record, in collection order, minus the
/// encrypted payload.
pub fn requete_liste_clients(collection: &CollectionClients, identite: &Identite) -> (r: Result<
    ReponseListeClients,
    ErreurHebergement,
>)
    requires
        collection.inv(),
    ensures
        !spec_autorise_liste(*identite) ==> r matches Err(
            ErreurHebergement::AutorisationRefusee { .. },
        ),
        spec_autorise_liste(*identite) ==> (r matches Ok(rep) && rep.ok == true && rep.err is None
            && rep.clients.deep_view() == collection@.map_values(
            |client: ClientModele| spec_reponse_ligne(client),
        )),
{
    let niveau = crate::securite::niveau_maximal(&identite.exchanges);
    let delegation = match &identite.delegation_globale {
        Some(d) => d.eq(&"proprietaire".to_owned()),
        None => false,
    };
    if !(niveau >= 4 || delegation) {
        return Err(
            ErreurHebergement::AutorisationRefusee {
                identite_resume: identite.fingerprint.clone(),
            },
        );
    }

    let mut clients: Vec<ReponseClientRow> = Vec::new();
    let mut i: usize = 0;
    while i < collection.rows.len()
        invariant
            i <= collection@.len(),
            collection@.len() == collection.rows@.len(),
            clients.deep_view() =~= collection@.take(i as int).map_values(
                |client: ClientModele| spec_reponse_ligne(client),
            ),
        decreases collection@.len() - i,
    {
        let ligne = ReponseClientRow::from(collection.rows[i].copier());
        let ghost avant = clients.deep_view();
        proof {
            assert(ligne@ == spec_reponse_ligne(collection@[i as int]));
        }
        clients.push(ligne);
        proof {
            let f = |client: ClientModele| spec_reponse_ligne(client);
            assert(clients.deep_view() =~= avant.push(ligne@));
            assert(collection@.take(i + 1 as int).drop_last() =~= collection@.take(i as int));
            assert(collection@.take(i + 1 as int).map_values(f) =~= collection@.take(
                i as int,
            ).map_values(f).push(spec_reponse_ligne(collection@[i as int])));
            assert(clients.deep_view() =~= collection@.take(i + 1 as int).map_values(f));
        }
        i = i + 1;
    }
    proof {
        assert(collection@.take(collection@.len() as int) =~= collection@);
    }
    Ok(ReponseListeClients { ok: true, err: None, clients })
}

/// What the external trust module reports while it verifies the
/// embedded token request, step by step: the inner envelope signature,
/// the caller-asserted root certificate, the leaf certificate validated
/// against that root, and the attributes read from both.  A field that
/// belongs to a later step is meaningful only when every earlier step
/// passed; the handler never reads it otherwise.
pub struct PreuveJeton {
    /// The inner request's own envelope signature verifies.
    pub signature_valide: bool,
    /// The root-of-trust certificate field is present.
    pub ca_present: bool,
    /// The root certificate loads and validates.
    pub ca_valide: bool,
    /// The leaf certificate field is present.
    pub certificat_present: bool,
    /// The leaf certificate validates against the loaded root.
    pub certificat_valide: bool,
    /// Key fingerprint the payload declares.
    pub pubkey: String,
    /// Fingerprint of the validated leaf certificate.
    pub fingerprint_certificat: String,
    /// Roles enveloped in the validated leaf certificate.
    pub roles_certificat: Vec<String>,
    /// Tenant id computed from the validated root.
    pub idmg_calcule: String,
    /// Tenant id enveloped in the leaf certificate.
    pub idmg_certificat: String,
}

/// The numbered rejections of the token handshake.  The codes are
/// stable wire identifiers, so automated callers branch on them without
/// string matching; the numbering leaves 2 unused, reserved in the wire
/// protocol.
#[derive(Clone, Copy, Debug, PartialEq, Eq, Structural)]
pub enum RefusJeton {
    /// The inner envelope signature is invalid; code 1.
    SignatureInvalide,
    /// The root certificate field is absent; code 3.
    CertificatCaManquant,
    /// The root certificate does not validate; code 4.
    CertificatCaInvalide,
    /// The leaf's tenant id differs from the root's; code 5.
    MismatchIdmg,
    /// The leaf certificate field is absent; code 6.
    CertificatManquant,
    /// The leaf certificate does not validate; code 7.
    CertificatInvalide,
    /// The declared fingerprint differs from the leaf's; code 8.
    MismatchCertificat,
    /// No active hosting record for the computed tenant id; code 9.
    HebergementNonConfigure,
}

impl RefusJeton {
    /// The wire code of the rejection.
    pub open spec fn spec_code(self) -> i64 {
        match self {
            RefusJeton::SignatureInvalide => 1,
            RefusJeton::CertificatCaManquant => 3,
            RefusJeton::CertificatCaInvalide => 4,
            RefusJeton::MismatchIdmg => 5,
            RefusJeton::CertificatManquant => 6,
            RefusJeton::CertificatInvalide => 7,
            RefusJeton::MismatchCertificat => 8,
            RefusJeton::HebergementNonConfigure => 9,
        }
    }

    /// Executable wire code, equal to [`Self::spec_code`].
    pub fn code(self) -> (c: i64)
        ensures
            c == self.spec_code(),
    {
        match self {
            RefusJeton::SignatureInvalide => 1,
            RefusJeton::CertificatCaManquant => 3,
            RefusJeton::CertificatCaInvalide => 4,
            RefusJeton::MismatchIdmg => 5,
            RefusJeton::CertificatManquant => 6,
            RefusJeton::CertificatInvalide => 7,
            RefusJeton::MismatchCertificat => 8,
            RefusJeton::HebergementNonConfigure => 9,
        }
    }

    /// The wire message of the rejection.
    pub fn message(self) -> (m: String)
        ensures
            match self {
                RefusJeton::SignatureInvalide => m@ == "Signature requete invalide"@,
                RefusJeton::CertificatCaManquant => m@ == "Certificat IDMG manquant"@,
                RefusJeton::CertificatCaInvalide => m@ == "Certificat IDMG invalide"@,
                RefusJeton::MismatchIdmg => m@ == "Mismatch idmg certificat/ca"@,
                RefusJeton::CertificatManquant => m@ == "Certificat requete manquant"@,
                RefusJeton::CertificatInvalide => m@ == "Certificat requete invalide"@,
                RefusJeton::MismatchCertificat => m@ == "Mismatch certificat requete"@,
                RefusJeton::HebergementNonConfigure => m@
                    == "Hebergement non configure pour client"@,
            },
    {
        match self {
            RefusJeton::SignatureInvalide => "Signature requete invalide".to_owned(),
            RefusJeton::CertificatCaManquant => "Certificat IDMG manquant".to_owned(),
            RefusJeton::CertificatCaInvalide => "Certificat IDMG invalide".to_owned(),
            RefusJeton::MismatchIdmg => "Mismatch idmg certificat/ca".to_owned(),
            RefusJeton::CertificatManquant => "Certificat requete manquant".to_owned(),
            RefusJeton::CertificatInvalide => "Certificat requete invalide".to_owned(),
            RefusJeton::MismatchCertificat => "Mismatch certificat requete".to_owned(),
            RefusJeton::HebergementNonConfigure => "Hebergement non configure pour client".to_owned(
            ),
        }
    }
}

/// Outcome of the token handshake.  This handler never drops silently:
/// every path yields a well-formed response or a hard error.
pub enum ReponseJeton {
    /// The pair of scoped tokens; the transport encrypts this response
    /// to the caller's validated public key before sending it.
    Succes { jwt_readonly: String, jwt_readwrite: String },
    /// A numbered rejection.
    Refus(RefusJeton),
}

/// There is an active hosting record for `idmg`; an inactive record
/// counts as absent.
pub open spec fn spec_heberge_actif(rows: Seq<ClientModele>, idmg: Seq<char>) -> bool {
    match spec_client(rows, idmg) {
        Some(client) => client.actif,
        None => false,
    }
}

/// The outcome the token handshake owes, step by step, first failure
/// short-circuiting: invalid inner signature (code 1), absent root
/// certificate (3), invalid root (4), absent leaf (6), invalid leaf
/// (7), fingerprint mismatch (8), then the role check (hard error, no
/// code), tenant-id mismatch (5), missing or inactive hosting record
/// (9), and at last the two signed tokens minted from the record's
/// hosted roles and domains.
pub open spec fn spec_resultat_jeton(
    rows: Seq<ClientModele>,
    preuve: PreuveJeton,
    cle: CleSignature,
    now: i64,
    r: Result<ReponseJeton, ErreurHebergement>,
) -> bool {
    if !preuve.signature_valide {
        r matches Ok(ReponseJeton::Refus(RefusJeton::SignatureInvalide))
    } else if !preuve.ca_present {
        r matches Ok(ReponseJeton::Refus(RefusJeton::CertificatCaManquant))
    } else if !preuve.ca_valide {
        r matches Ok(ReponseJeton::Refus(RefusJeton::CertificatCaInvalide))
    } else if !preuve.certificat_present {
        r matches Ok(ReponseJeton::Refus(RefusJeton::CertificatManquant))
    } else if !preuve.certificat_valide {
        r matches Ok(ReponseJeton::Refus(RefusJeton::CertificatInvalide))
    } else if preuve.pubkey@ != preuve.fingerprint_certificat@ {
        r matches Ok(ReponseJeton::Refus(RefusJeton::MismatchCertificat))
    } else if !spec_contient_chaine(preuve.roles_certificat@, "core"@) {
        r matches Err(ErreurHebergement::RoleNonSupporte)
    } else if preuve.idmg_certificat@ != preuve.idmg_calcule@ {
        r matches Ok(ReponseJeton::Refus(RefusJeton::MismatchIdmg))
    } else if !spec_heberge_actif(rows, preuve.idmg_calcule@) {
        r matches Ok(ReponseJeton::Refus(RefusJeton::HebergementNonConfigure))
    } else {
        let client = spec_client(rows, preuve.idmg_calcule@).unwrap();
        r matches Ok(ReponseJeton::Succes { jwt_readonly, jwt_readwrite }) && jwt_readonly@
            == spec_jeton_chaine(
            spec_claims_jeton(preuve.idmg_calcule@, false, client.roles, client.domaines, now as int),
            cle.fingerprint@,
            cle.cle_privee@,
        ) && jwt_readwrite@ == spec_jeton_chaine(
            spec_claims_jeton(preuve.idmg_calcule@, true, client.roles, client.domaines, now as int),
            cle.fingerprint@,
            cle.cle_privee@,
        )
    }
}

/// The token handshake: runs the step-by-step verification verdicts
/// against the handshake order, looks the tenant up, and on success
/// mints the read-only and read-write tokens with a one-hour expiry.
pub fn requete_token_jwt(
    collection: &CollectionClients,
    preuve: &PreuveJeton,
    cle: &CleSignature,
    now: i64,
) -> (r: Result<ReponseJeton, ErreurHebergement>)
    requires
        collection.inv(),
        cle.bien_formee(),
        0 <= now,
        now + 3600 <= i64::MAX,
    ensures
        spec_resultat_jeton(collection@, *preuve, *cle, now, r),
{
    if !preuve.signature_valide {
        return Ok(ReponseJeton::Refus(RefusJeton::SignatureInvalide));
    }
    if !preuve.ca_present {
        return Ok(ReponseJeton::Refus(RefusJeton::CertificatCaManquant));
    }
    if !preuve.ca_valide {
        return Ok(ReponseJeton::Refus(RefusJeton::CertificatCaInvalide));
    }
    if !preuve.certificat_present {
        return Ok(ReponseJeton::Refus(RefusJeton::CertificatManquant));
    }
    if !preuve.certificat_valide {
        return Ok(ReponseJeton::Refus(RefusJeton::CertificatInvalide));
    }
    if !preuve.pubkey.eq(&preuve.fingerprint_certificat) {
        return Ok(ReponseJeton::Refus(RefusJeton::MismatchCertificat));
    }
    if !contient_chaine(&preuve.roles_certificat, &"core".to_owned()) {
        return Err(ErreurHebergement::RoleNonSupporte);
    }
    if !preuve.idmg_certificat.eq(&preuve.idmg_calcule) {
        return Ok(ReponseJeton::Refus(RefusJeton::MismatchIdmg));
    }
    let client = match collection.trouver_client(&preuve.idmg_calcule) {
        Some(row) => row,
        None => {
            return Ok(ReponseJeton::Refus(RefusJeton::HebergementNonConfigure));
        },
    };
    if !client.actif {
        return Ok(ReponseJeton::Refus(RefusJeton::HebergementNonConfigure));
    }

    let roles_lecture = cloner_chaines_opt(&client.roles);
    let domaines_lecture = cloner_chaines_opt(&client.domaines);
    let roles_ecriture = cloner_chaines_opt(&client.roles);
    let domaines_ecriture = cloner_chaines_opt(&client.domaines);
    let jwt_readonly = generer_jwt_hebergement(
        cle,
        &preuve.idmg_calcule,
        false,
        roles_lecture,
        domaines_lecture,
        now,
    );
    let jwt_readwrite = generer_jwt_hebergement(
        cle,
        &preuve.idmg_calcule,
        true,
        roles_ecriture,
        domaines_ecriture,
        now,
    );
    Ok(ReponseJeton::Succes { jwt_readonly, jwt_readwrite })
}

/// A response to a request.
pub enum ReponseRequete {
    Liste(ReponseListeClients),
    Jeton(ReponseJeton),
}

/// Entry point for inbound requests: admission check at the lowest
/// request threshold (the request queue serves both actions, and the
/// stricter listing handler re-checks on its own), then dispatch by
/// action name.  An unknown action fails with `ActionInconnue`, which
/// the caller logs and drops without a response; no handler failure
/// escapes as anything but an `ErreurHebergement`.
pub fn consommer_requete(
    collection: &CollectionClients,
    identite: &Identite,
    type_message: &TypeMessageRecu,
    preuve: Option<&PreuveJeton>,
    cle: &CleSignature,
    now: i64,
) -> (r: Result<Option<ReponseRequete>, ErreurHebergement>)
    requires
        collection.inv(),
        cle.bien_formee(),
        0 <= now,
        now + 3600 <= i64::MAX,
    ensures
        spec_contexte_autorise(*identite, CategorieAction::EmissionJeton) is None ==> r matches Err(
            ErreurHebergement::AutorisationRefusee { .. },
        ),
        spec_contexte_autorise(*identite, CategorieAction::EmissionJeton) is Some ==> match *type_message {
            TypeMessageRecu::Requete { action } => {
                if action@ == "getListeClients"@ {
                    if !spec_autorise_liste(*identite) {
                        r matches Err(ErreurHebergement::AutorisationRefusee { .. })
                    } else {
                        r matches Ok(Some(ReponseRequete::Liste(rep))) && rep.ok == true
                            && rep.err is None && rep.clients.deep_view() == collection@.map_values(
                            |client: ClientModele| spec_reponse_ligne(client),
                        )
                    }
                } else if action@ == "getTokenJwt"@ {
                    match preuve {
                        Some(p) => match r {
                            Ok(Some(ReponseRequete::Jeton(rj))) => spec_resultat_jeton(
                                collection@,
                                *p,
                                *cle,
                                now,
                                Ok(rj),
                            ),
                            Err(e) => spec_resultat_jeton(collection@, *p, *cle, now, Err(e)),
                            _ => false,
                        },
                        None => r matches Err(ErreurHebergement::PayloadInvalide),
                    }
                } else {
                    r matches Err(ErreurHebergement::ActionInconnue { action: a }) && a@ == action@
                }
            },
            _ => r matches Err(ErreurHebergement::MauvaisTypeMessage),
        },
{
    let contexte = verifier_autorisation(identite, CategorieAction::EmissionJeton);
    if let Err(e) = contexte {
        return Err(e);
    }

    let action = match type_message {
        TypeMessageRecu::Requete { action } => action,
        _ => {
            return Err(ErreurHebergement::MauvaisTypeMessage);
        },
    };

    if action.eq(&"getListeClients".to_owned()) {
        match requete_liste_clients(collection, identite) {
            Ok(rep) => Ok(Some(ReponseRequete::Liste(rep))),
            Err(e) => Err(e),
        }
    } else if action.eq(&"getTokenJwt".to_owned()) {
        match preuve {
            Some(p) => {
                match requete_token_jwt(collection, p, cle, now) {
                    Ok(rj) => Ok(Some(ReponseRequete::Jeton(rj))),
                    Err(e) => Err(e),
                }
            },
            None => Err(ErreurHebergement::PayloadInvalide),
        }
    } else {
        Err(ErreurHebergement::ActionInconnue { action: action.clone() })
    }
}

} // verus!
