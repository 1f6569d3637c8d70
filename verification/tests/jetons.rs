use std::time::SystemTime;
use std::time::UNIX_EPOCH;

use base64::Engine;
use base64::engine::general_purpose::URL_SAFE_NO_PAD;
use ed25519_dalek::Signer;
use ed25519_dalek::Verifier;
use jwt_simple::algorithms::EdDSAPublicKeyLike;
use jwt_simple::algorithms::Ed25519PublicKey;

use hebergement::autorisation::Identite;
use hebergement::base64url::encoder_base64url;
use hebergement::commandes::ValidationIdmg;
use hebergement::commandes::consommer_commande;
use hebergement::jwt::ClaimsTokenHebergement;
use hebergement::jwt::CleSignature;
use hebergement::jwt::construire_payload_jeton;
use hebergement::jwt::generer_jwt_hebergement;
use hebergement::messages::TypeMessageRecu;
use hebergement::requetes::PreuveJeton;
use hebergement::requetes::ReponseJeton;
use hebergement::requetes::ReponseRequete;
use hebergement::requetes::consommer_requete;
use hebergement::securite::Securite;
use hebergement::structure_donnees::CollectionClients;
use hebergement::transactions::TransactionSauvegarderClient;

const GRAINE: [u8; 32] = [7u8; 32];

fn cle_test() -> CleSignature {
    CleSignature::new(GRAINE.to_vec(), "fp-emetteur".to_string()).unwrap()
}

fn cle_publique() -> Ed25519PublicKey {
    let cle = ed25519_dalek::SigningKey::from_bytes(&GRAINE);
    Ed25519PublicKey::from_bytes(cle.verifying_key().as_bytes()).unwrap()
}

fn maintenant() -> i64 {
    SystemTime::now()
        .duration_since(UNIX_EPOCH)
        .unwrap()
        .as_secs() as i64
}

#[test]
fn base64url_concorde_avec_la_bibliotheque() {
    let echantillons: Vec<Vec<u8>> = vec![
        vec![],
        vec![0],
        vec![255],
        vec![0, 0],
        vec![251, 255],
        vec![77, 97, 110],
        vec![1, 2, 3, 4],
        vec![250, 251, 252, 253, 254],
        vec![0, 16, 131, 16, 81, 135, 32, 146, 139, 48],
        (0u8..=255).collect(),
    ];
    for octets in echantillons {
        let encode = String::from_utf8(encoder_base64url(&octets)).unwrap();
        assert_eq!(encode, URL_SAFE_NO_PAD.encode(&octets));
    }
}

#[test]
fn payload_est_du_json_exact() {
    let claims = ClaimsTokenHebergement {
        roles: Some(vec!["core".to_string(), "media".to_string()]),
        domaines: Some(vec!["files".to_string()]),
        readwrite: true,
    };
    let payload = construire_payload_jeton(&claims, &"abc123".to_string(), 1700000000);
    let valeur: serde_json::Value = serde_json::from_slice(&payload).unwrap();
    assert_eq!(valeur.get("iat").unwrap().as_i64(), Some(1700000000));
    assert_eq!(valeur.get("exp").unwrap().as_i64(), Some(1700003600));
    assert_eq!(valeur.get("nbf").unwrap().as_i64(), Some(1700000000));
    assert_eq!(valeur.get("iss").unwrap().as_str(), Some("Hebergement"));
    assert_eq!(valeur.get("sub").unwrap().as_str(), Some("abc123"));
    assert_eq!(valeur.get("readwrite").unwrap().as_bool(), Some(true));
    let roles: Vec<&str> = valeur
        .get("roles")
        .unwrap()
        .as_array()
        .unwrap()
        .iter()
        .map(|v| v.as_str().unwrap())
        .collect();
    assert_eq!(roles, vec!["core", "media"]);
    let domaines: Vec<&str> = valeur
        .get("domaines")
        .unwrap()
        .as_array()
        .unwrap()
        .iter()
        .map(|v| v.as_str().unwrap())
        .collect();
    assert_eq!(domaines, vec!["files"]);
}

#[test]
fn payload_sans_roles_ni_domaines() {
    let claims = ClaimsTokenHebergement {
        roles: None,
        domaines: None,
        readwrite: false,
    };
    let payload = construire_payload_jeton(&claims, &"abc123".to_string(), 0);
    let valeur: serde_json::Value = serde_json::from_slice(&payload).unwrap();
    assert!(valeur.get("roles").is_none());
    assert!(valeur.get("domaines").is_none());
    assert_eq!(valeur.get("readwrite").unwrap().as_bool(), Some(false));
    assert_eq!(valeur.get("iat").unwrap().as_i64(), Some(0));
    assert_eq!(valeur.get("exp").unwrap().as_i64(), Some(3600));
}

#[test]
fn payload_echappe_les_caracteres_speciaux() {
    let nasty = "gui\"llemet\\barre\nsaut\ttab\u{1}ctrl é accent";
    let claims = ClaimsTokenHebergement {
        roles: Some(vec![nasty.to_string()]),
        domaines: None,
        readwrite: false,
    };
    let payload = construire_payload_jeton(&claims, &nasty.to_string(), 42);
    let valeur: serde_json::Value = serde_json::from_slice(&payload).unwrap();
    assert_eq!(valeur.get("sub").unwrap().as_str(), Some(nasty));
    assert_eq!(
        valeur.get("roles").unwrap().as_array().unwrap()[0].as_str(),
        Some(nasty)
    );
}

#[test]
fn jeton_se_decompose_en_trois_segments_coherents() {
    let cle = cle_test();
    let jeton = generer_jwt_hebergement(
        &cle,
        &"abc123".to_string(),
        false,
        Some(vec!["core".to_string()]),
        None,
        1700000000,
    );
    let segments: Vec<&str> = jeton.split('.').collect();
    assert_eq!(segments.len(), 3);

    let entete: serde_json::Value =
        serde_json::from_slice(&URL_SAFE_NO_PAD.decode(segments[0]).unwrap()).unwrap();
    assert_eq!(entete.get("alg").unwrap().as_str(), Some("EdDSA"));
    assert_eq!(entete.get("typ").unwrap().as_str(), Some("JWT"));
    assert_eq!(entete.get("kid").unwrap().as_str(), Some("fp-emetteur"));

    let corps: serde_json::Value =
        serde_json::from_slice(&URL_SAFE_NO_PAD.decode(segments[1]).unwrap()).unwrap();
    assert_eq!(corps.get("sub").unwrap().as_str(), Some("abc123"));

    // The third segment is a real Ed25519 signature of `header.payload`.
    let cle_brute = ed25519_dalek::SigningKey::from_bytes(&GRAINE);
    let message = format!("{}.{}", segments[0], segments[1]);
    let signature = ed25519_dalek::Signature::from_slice(
        &URL_SAFE_NO_PAD.decode(segments[2]).unwrap(),
    )
    .unwrap();
    cle_brute
        .verifying_key()
        .verify(message.as_bytes(), &signature)
        .unwrap();
    // A signature of something else does not verify: the signature truly
    // covers the token body.
    let autre = cle_brute.sign(b"autre message");
    assert!(cle_brute
        .verifying_key()
        .verify(message.as_bytes(), &autre)
        .is_err());
}

#[test]
fn jeton_se_verifie_avec_la_cle_publique_de_l_emetteur() {
    let cle = cle_test();
    let now = maintenant();
    let jeton = generer_jwt_hebergement(
        &cle,
        &"abc123".to_string(),
        true,
        Some(vec!["core".to_string()]),
        Some(vec!["files".to_string()]),
        now,
    );
    let claims = cle_publique()
        .verify_token::<serde_json::Value>(&jeton, None)
        .unwrap();
    assert_eq!(claims.subject.as_deref(), Some("abc123"));
    assert_eq!(claims.issuer.as_deref(), Some("Hebergement"));
    let iat = claims.issued_at.unwrap().as_secs();
    let exp = claims.expires_at.unwrap().as_secs();
    assert_eq!(iat as i64, now);
    // Expiry exactly one hour after issuance.
    assert_eq!(exp - iat, 3600);
    assert_eq!(claims.custom.get("readwrite").unwrap().as_bool(), Some(true));
}

#[test]
fn scenario_complet_sauvegarde_puis_jetons() {
    // Save the hosting client, then run the full token handshake and
    // decode both credentials with the issuer's public key.
    let mut collection = CollectionClients::new();
    let identite = Identite {
        fingerprint: "fp-instance".to_string(),
        roles: vec![],
        exchanges: vec![Securite::L3Protege],
        delegation_globale: None,
        idmg: None,
        user_id: None,
    };
    let commande = TransactionSauvegarderClient {
        idmg: "abc123".to_string(),
        descriptif: Some("Acme".to_string()),
        expiration: None,
        roles: Some(vec!["core".to_string()]),
        domaines: Some(vec!["files".to_string()]),
        data_chiffre: None,
        actif: None,
    };
    let now = maintenant();
    let r = consommer_commande(
        &mut collection,
        &identite,
        &TypeMessageRecu::Commande {
            action: "sauvegarderClient".to_string(),
        },
        Some(commande),
        &ValidationIdmg::Valide {
            expiration: now + 1_000_000,
        },
        now,
    );
    assert!(r.unwrap().unwrap().ok);

    let preuve = PreuveJeton {
        signature_valide: true,
        ca_present: true,
        ca_valide: true,
        certificat_present: true,
        certificat_valide: true,
        pubkey: "fp-feuille".to_string(),
        fingerprint_certificat: "fp-feuille".to_string(),
        roles_certificat: vec!["core".to_string()],
        idmg_calcule: "abc123".to_string(),
        idmg_certificat: "abc123".to_string(),
    };
    let cle = cle_test();
    let demandeur = Identite {
        fingerprint: "fp-feuille".to_string(),
        roles: vec!["core".to_string()],
        exchanges: vec![Securite::L1Public],
        delegation_globale: None,
        idmg: Some("abc123".to_string()),
        user_id: None,
    };
    let r = consommer_requete(
        &collection,
        &demandeur,
        &TypeMessageRecu::Requete {
            action: "getTokenJwt".to_string(),
        },
        Some(&preuve),
        &cle,
        now,
    );
    let (jwt_readonly, jwt_readwrite) = match r {
        Ok(Some(ReponseRequete::Jeton(ReponseJeton::Succes {
            jwt_readonly,
            jwt_readwrite,
        }))) => (jwt_readonly, jwt_readwrite),
        _ => panic!("le handshake complet doit emettre les deux jetons"),
    };

    let publique = cle_publique();
    let lecture = publique
        .verify_token::<serde_json::Value>(&jwt_readonly, None)
        .unwrap();
    let ecriture = publique
        .verify_token::<serde_json::Value>(&jwt_readwrite, None)
        .unwrap();
    for claims in [&lecture, &ecriture] {
        assert_eq!(claims.subject.as_deref(), Some("abc123"));
        let roles: Vec<&str> = claims.custom["roles"]
            .as_array()
            .unwrap()
            .iter()
            .map(|v| v.as_str().unwrap())
            .collect();
        assert_eq!(roles, vec!["core"]);
        let domaines: Vec<&str> = claims.custom["domaines"]
            .as_array()
            .unwrap()
            .iter()
            .map(|v| v.as_str().unwrap())
            .collect();
        assert_eq!(domaines, vec!["files"]);
        let iat = claims.issued_at.unwrap().as_secs();
        let exp = claims.expires_at.unwrap().as_secs();
        assert_eq!(exp - iat, 3600);
    }
    assert_eq!(lecture.custom["readwrite"].as_bool(), Some(false));
    assert_eq!(ecriture.custom["readwrite"].as_bool(), Some(true));
}
