//! Minting of the scoped hosting tokens: the claims object, its exact
//! JSON text, and the signed compact token
//! `base64url(header).base64url(claims).base64url(signature)`.
//!
//! The header and claims bytes are emitted by the verified JSON builders
//! of this crate; only the Ed25519 signature itself comes from an
//! outside crate, behind [`signature_ed25519`].  The issuer signs with
//! its process-scoped key, identified (`kid`) by its own certificate
//! fingerprint.

use vstd::prelude::*;
use vstd::utf8::encode_utf8;

use crate::base64url::encoder_base64url;
use crate::base64url::spec_base64url;
use crate::erreurs::ErreurHebergement;
use crate::json::ajouter_chaine_json;
use crate::json::ajouter_chiffres;
use crate::json::ajouter_litteral;
use crate::json::ajouter_octets;
use crate::json::ajouter_tableau_json;
use crate::json::spec_chaine_json;
use crate::json::spec_chiffres;
use crate::json::spec_tableau_json;

verus! {

/// Number of seconds a freshly issued hosting token stays valid.
pub const CONST_DUREE_TOKEN_VALIDE: u64 = 3600;

/// The custom claims carried by a hosting token.
pub struct ClaimsTokenHebergement {
    /// Roles hosted for the client.
    pub roles: Option<Vec<String>>,
    /// Domains hosted for the client.
    pub domaines: Option<Vec<String>>,
    /// True when the token grants read and write; false for read-only.
    pub readwrite: bool,
}

/// The issuer's process-scoped signing material, injected at
/// construction: the raw Ed25519 seed and the fingerprint of the
/// issuer's own certificate, which becomes the token's key id.
pub struct CleSignature {
    /// 32-byte Ed25519 seed.
    pub cle_privee: Vec<u8>,
    /// Fingerprint of the issuer's certificate.
    pub fingerprint: String,
}

impl CleSignature {
    /// The seed has the length Ed25519 demands.
    pub open spec fn bien_formee(self) -> bool {
        self.cle_privee@.len() == 32
    }

    /// Builds the signing context; rejects a seed of the wrong length.
    pub fn new(cle_privee: Vec<u8>, fingerprint: String) -> (r: Result<
        CleSignature,
        ErreurHebergement,
    >)
        ensures
            cle_privee@.len() == 32 <==> r is Ok,
            r matches Ok(cle) ==> cle.bien_formee() && cle.cle_privee@ == cle_privee@
                && cle.fingerprint@ == fingerprint@,
    {
        if cle_privee.len() == 32 {
            Ok(CleSignature { cle_privee, fingerprint })
        } else {
            Err(ErreurHebergement::PayloadInvalide)
        }
    }
}

/// Mathematical model of a token's claim set.
pub ghost struct JetonModele {
    /// Issued at, epoch seconds.
    pub iat: int,
    /// Expires at, epoch seconds.
    pub exp: int,
    /// Issuer.
    pub iss: Seq<char>,
    /// Subject: the tenant id the token is scoped to.
    pub sub: Seq<char>,
    pub roles: Option<Seq<Seq<char>>>,
    pub domaines: Option<Seq<Seq<char>>>,
    pub readwrite: bool,
}

/// The claim set a token minted at `now` carries: subject is the tenant
/// id, issuer is the domain, and the expiry is exactly one hour after
/// issuance.
pub open spec fn spec_claims_jeton(
    idmg: Seq<char>,
    readwrite: bool,
    roles: Option<Seq<Seq<char>>>,
    domaines: Option<Seq<Seq<char>>>,
    now: int,
) -> JetonModele {
    JetonModele {
        iat: now,
        exp: now + CONST_DUREE_TOKEN_VALIDE,
        iss: "Hebergement"@,
        sub: idmg,
        roles,
        domaines,
        readwrite,
    }
}

/// The exact JSON text of a claim set.
pub open spec fn spec_payload_jeton(m: JetonModele) -> Seq<u8> {
    encode_utf8("{\"iat\":"@) + spec_chiffres(m.iat) + encode_utf8(",\"exp\":"@) + spec_chiffres(
        m.exp,
    ) + encode_utf8(",\"nbf\":"@) + spec_chiffres(m.iat) + encode_utf8(",\"iss\":"@)
        + spec_chaine_json(m.iss) + encode_utf8(",\"sub\":"@) + spec_chaine_json(m.sub) + (
    match m.roles {
        Some(liste) => encode_utf8(",\"roles\":"@) + spec_tableau_json(liste),
        None => Seq::empty(),
    }) + (match m.domaines {
        Some(liste) => encode_utf8(",\"domaines\":"@) + spec_tableau_json(liste),
        None => Seq::empty(),
    }) + encode_utf8(",\"readwrite\":"@) + (if m.readwrite {
        encode_utf8("true"@)
    } else {
        encode_utf8("false"@)
    }) + encode_utf8("}"@)
}

/// The exact JSON text of the token header for key id `kid`.
pub open spec fn spec_entete_jeton(kid: Seq<char>) -> Seq<u8> {
    encode_utf8("{\"alg\":\"EdDSA\",\"typ\":\"JWT\",\"kid\":"@) + spec_chaine_json(kid)
        + encode_utf8("}"@)
}

/// The Ed25519 signature of `message` under the 32-byte seed `cle`.
/// RFC 8032 signing is deterministic: the bytes depend on the message
/// and the seed alone.
pub uninterp spec fn signature_ed25519(message: Seq<u8>, cle: Seq<u8>) -> Seq<u8>;

/// Relies on `ed25519_dalek::SigningKey::{from_bytes, sign}`: RFC 8032
/// Ed25519 signing, deterministic in message and seed, yielding a
/// 64-byte signature.
#[verifier::external_body]
fn signer_ed25519(cle: &Vec<u8>, message: &Vec<u8>) -> (r: Vec<u8>)
    requires
        cle@.len() == 32,
    ensures
        r@ == signature_ed25519(message@, cle@),
        r@.len() == 64,
{
    let mut graine = [0u8; 32];
    graine.copy_from_slice(cle.as_slice());
    let cle_signature = ed25519_dalek::SigningKey::from_bytes(&graine);
    ed25519_dalek::Signer::sign(&cle_signature, message.as_slice()).to_bytes().to_vec()
}

/// Relies on `String::from_utf8`: ASCII bytes are valid UTF-8 and
/// decode to the characters with the same code points.
#[verifier::external_body]
fn chaine_ascii(octets: Vec<u8>) -> (r: String)
    requires
        forall|i: int| 0 <= i < octets@.len() ==> octets@[i] < 128,
    ensures
        r@ == octets@.map_values(|b: u8| b as char),
{
    match String::from_utf8(octets) {
        Ok(s) => s,
        Err(_) => String::new(),
    }
}

/// The bytes of the complete signed token for claim set `m`, key id
/// `kid` and seed `cle`.
pub open spec fn spec_jeton_octets(m: JetonModele, kid: Seq<char>, cle: Seq<u8>) -> Seq<u8> {
    let message = spec_base64url(spec_entete_jeton(kid)) + seq![46u8] + spec_base64url(
        spec_payload_jeton(m),
    );
    message + seq![46u8] + spec_base64url(signature_ed25519(message, cle))
}

/// The complete signed token as characters.
pub open spec fn spec_jeton_chaine(m: JetonModele, kid: Seq<char>, cle: Seq<u8>) -> Seq<char> {
    spec_jeton_octets(m, kid, cle).map_values(|b: u8| b as char)
}

/// Emits the exact JSON text of the claims of a token minted at `now`
/// for tenant `sub`.
pub fn construire_payload_jeton(claims: &ClaimsTokenHebergement, sub: &String, now: i64) -> (r: Vec<
    u8,
>)
    requires
        0 <= now,
        now + 3600 <= i64::MAX,
    ensures
        r@ == spec_payload_jeton(
            spec_claims_jeton(
                sub@,
                claims.readwrite,
                claims.roles.deep_view(),
                claims.domaines.deep_view(),
                now as int,
            ),
        ),
{
    let ghost m = spec_claims_jeton(
        sub@,
        claims.readwrite,
        claims.roles.deep_view(),
        claims.domaines.deep_view(),
        now as int,
    );
    let mut sortie: Vec<u8> = Vec::new();
    ajouter_litteral(&mut sortie, "{\"iat\":");
    proof {
        assert(sortie@ =~= encode_utf8("{\"iat\":"@));
    }
    ajouter_chiffres(&mut sortie, now);
    ajouter_litteral(&mut sortie, ",\"exp\":");
    ajouter_chiffres(&mut sortie, now + (CONST_DUREE_TOKEN_VALIDE as i64));
    ajouter_litteral(&mut sortie, ",\"nbf\":");
    ajouter_chiffres(&mut sortie, now);
    ajouter_litteral(&mut sortie, ",\"iss\":");
    ajouter_chaine_json(&mut sortie, "Hebergement");
    ajouter_litteral(&mut sortie, ",\"sub\":");
    ajouter_chaine_json(&mut sortie, sub.as_str());
    let ghost prefixe = sortie@;
    match &claims.roles {
        Some(liste) => {
            ajouter_litteral(&mut sortie, ",\"roles\":");
            ajouter_tableau_json(&mut sortie, liste);
        },
        None => {},
    }
    proof {
        assert(sortie@ =~= prefixe + (match m.roles {
            Some(liste) => encode_utf8(",\"roles\":"@) + spec_tableau_json(liste),
            None => Seq::<u8>::empty(),
        }));
    }
    let ghost prefixe2 = sortie@;
    match &claims.domaines {
        Some(liste) => {
            ajouter_litteral(&mut sortie, ",\"domaines\":");
            ajouter_tableau_json(&mut sortie, liste);
        },
        None => {},
    }
    proof {
        assert(sortie@ =~= prefixe2 + (match m.domaines {
            Some(liste) => encode_utf8(",\"domaines\":"@) + spec_tableau_json(liste),
            None => Seq::<u8>::empty(),
        }));
    }
    ajouter_litteral(&mut sortie, ",\"readwrite\":");
    if claims.readwrite {
        ajouter_litteral(&mut sortie, "true");
    } else {
        ajouter_litteral(&mut sortie, "false");
    }
    ajouter_litteral(&mut sortie, "}");
    proof {
        assert(sortie@ =~= spec_payload_jeton(m));
    }
    sortie
}

/// Mints one signed hosting token: claims for tenant `idmg` with the
/// hosted roles and domains, the given read-write flag, issuance `now`
/// and an expiry one hour later, signed with the issuer's key under its
/// fingerprint as key id.
pub fn generer_jwt_hebergement(
    cle: &CleSignature,
    idmg: &String,
    readwrite: bool,
    roles_heberges: Option<Vec<String>>,
    domaines_heberges: Option<Vec<String>>,
    now: i64,
) -> (r: String)
    requires
        cle.bien_formee(),
        0 <= now,
        now + 3600 <= i64::MAX,
    ensures
        r@ == spec_jeton_chaine(
            spec_claims_jeton(
                idmg@,
                readwrite,
                roles_heberges.deep_view(),
                domaines_heberges.deep_view(),
                now as int,
            ),
            cle.fingerprint@,
            cle.cle_privee@,
        ),
{
    let ghost m = spec_claims_jeton(
        idmg@,
        readwrite,
        roles_heberges.deep_view(),
        domaines_heberges.deep_view(),
        now as int,
    );
    let claims = ClaimsTokenHebergement {
        roles: roles_heberges,
        domaines: domaines_heberges,
        readwrite,
    };

    let mut entete: Vec<u8> = Vec::new();
    ajouter_litteral(&mut entete, "{\"alg\":\"EdDSA\",\"typ\":\"JWT\",\"kid\":");
    proof {
        assert(entete@ =~= encode_utf8("{\"alg\":\"EdDSA\",\"typ\":\"JWT\",\"kid\":"@));
    }
    ajouter_chaine_json(&mut entete, cle.fingerprint.as_str());
    ajouter_litteral(&mut entete, "}");
    proof {
        assert(entete@ =~= spec_entete_jeton(cle.fingerprint@));
    }

    let payload = construire_payload_jeton(&claims, idmg, now);

    let mut message = encoder_base64url(&entete);
    message.push(46);
    let p64 = encoder_base64url(&payload);
    ajouter_octets(&mut message, p64.as_slice());
    proof {
        assert(message@ =~= spec_base64url(spec_entete_jeton(cle.fingerprint@)) + seq![46u8]
            + spec_base64url(spec_payload_jeton(m)));
        assert forall|k: int| 0 <= k < message@.len() implies message@[k] < 128 by {}
    }

    let signature = signer_ed25519(&cle.cle_privee, &message);
    let s64 = encoder_base64url(&signature);
    message.push(46);
    ajouter_octets(&mut message, s64.as_slice());
    proof {
        assert(message@ =~= spec_jeton_octets(m, cle.fingerprint@, cle.cle_privee@));
        assert forall|k: int| 0 <= k < message@.len() implies message@[k] < 128 by {}
    }

    let jeton = chaine_ascii(message);
    proof {
        assert(jeton@ =~= spec_jeton_chaine(m, cle.fingerprint@, cle.cle_privee@));
    }
    jeton
}

/// On the success path of token issuance, both claim sets carry the
/// tenant id as subject, the hosted roles and domains as custom claims,
/// differing read-write flags, and an expiry exactly one hour after
/// issuance.
pub proof fn lemme_jetons_emis(
    idmg: Seq<char>,
    roles: Option<Seq<Seq<char>>>,
    domaines: Option<Seq<Seq<char>>>,
    now: int,
)
    ensures
        ({
            let lecture = spec_claims_jeton(idmg, false, roles, domaines, now);
            let ecriture = spec_claims_jeton(idmg, true, roles, domaines, now);
            &&& lecture.sub == idmg && ecriture.sub == idmg
            &&& lecture.readwrite == false && ecriture.readwrite == true
            &&& lecture.iat == now && ecriture.iat == now
            &&& lecture.exp == now + 3600 && ecriture.exp == now + 3600
            &&& lecture.roles == roles && ecriture.roles == roles
            &&& lecture.domaines == domaines && ecriture.domaines == domaines
            &&& lecture.iss == "Hebergement"@ && ecriture.iss == "Hebergement"@
        }),
{
}

} // verus!
