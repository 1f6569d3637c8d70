use hebergement::autorisation::Identite;
use hebergement::erreurs::ErreurHebergement;
use hebergement::jwt::CleSignature;
use hebergement::messages::TypeMessageRecu;
use hebergement::requetes::PreuveJeton;
use hebergement::requetes::RefusJeton;
use hebergement::requetes::ReponseJeton;
use hebergement::requetes::ReponseRequete;
use hebergement::requetes::consommer_requete;
use hebergement::requetes::requete_liste_clients;
use hebergement::requetes::requete_token_jwt;
use hebergement::securite::Securite;
use hebergement::structure_donnees::CollectionClients;
use hebergement::transactions::TransactionSauvegarderClient;
use hebergement::transactions::transaction_sauvegarder_client;

fn identite(exchanges: Vec<Securite>, delegation: Option<&str>) -> Identite {
    Identite {
        fingerprint: "fp-test".to_string(),
        roles: vec![],
        exchanges,
        delegation_globale: delegation.map(|d| d.to_string()),
        idmg: None,
        user_id: None,
    }
}

fn collection_avec(idmg: &str, actif: Option<bool>) -> CollectionClients {
    let mut collection = CollectionClients::new();
    let t = TransactionSauvegarderClient {
        idmg: idmg.to_string(),
        descriptif: Some("Acme".to_string()),
        expiration: None,
        roles: Some(vec!["core".to_string()]),
        domaines: Some(vec!["files".to_string()]),
        data_chiffre: Some("secret-chiffre".to_string()),
        actif,
    };
    transaction_sauvegarder_client(&mut collection, t, 1000).unwrap();
    collection
}

fn cle_test() -> CleSignature {
    CleSignature::new(vec![7u8; 32], "fp-emetteur".to_string()).unwrap()
}

fn preuve_valide(idmg: &str) -> PreuveJeton {
    PreuveJeton {
        signature_valide: true,
        ca_present: true,
        ca_valide: true,
        certificat_present: true,
        certificat_valide: true,
        pubkey: "fp-feuille".to_string(),
        fingerprint_certificat: "fp-feuille".to_string(),
        roles_certificat: vec!["core".to_string()],
        idmg_calcule: idmg.to_string(),
        idmg_certificat: idmg.to_string(),
    }
}

#[test]
fn liste_refusee_sous_le_niveau_supreme() {
    let collection = collection_avec("abc123", None);
    // Below the top exchange level and without delegation: Unauthorized.
    for id in [
        identite(vec![Securite::L3Protege], None),
        identite(vec![Securite::L1Public], None),
        identite(vec![], None),
    ] {
        let r = requete_liste_clients(&collection, &id);
        assert!(matches!(
            r,
            Err(ErreurHebergement::AutorisationRefusee { .. })
        ));
    }
}

#[test]
fn liste_admise_au_niveau_supreme_ou_par_delegation() {
    let collection = collection_avec("abc123", None);
    for id in [
        identite(vec![Securite::L4Secure], None),
        identite(vec![], Some("proprietaire")),
    ] {
        let rep = requete_liste_clients(&collection, &id).unwrap();
        assert!(rep.ok);
        assert!(rep.err.is_none());
        assert_eq!(rep.clients.len(), 1);
        let ligne = &rep.clients[0];
        assert_eq!(ligne.idmg, "abc123");
        assert_eq!(ligne.descriptif.as_deref(), Some("Acme"));
        assert_eq!(ligne.roles.as_deref(), Some(&["core".to_string()][..]));
        assert_eq!(ligne.domaines.as_deref(), Some(&["files".to_string()][..]));
    }
}

#[test]
fn jeton_signature_invalide_code_1() {
    let collection = collection_avec("abc123", None);
    let mut preuve = preuve_valide("abc123");
    preuve.signature_valide = false;
    let r = requete_token_jwt(&collection, &preuve, &cle_test(), 1000).unwrap();
    match r {
        ReponseJeton::Refus(refus) => {
            assert_eq!(refus, RefusJeton::SignatureInvalide);
            assert_eq!(refus.code(), 1);
            assert_eq!(refus.message(), "Signature requete invalide");
        }
        _ => panic!("une signature invalide doit donner le code 1"),
    }
}

#[test]
fn jeton_ca_manquant_code_3() {
    let collection = collection_avec("abc123", None);
    let mut preuve = preuve_valide("abc123");
    preuve.ca_present = false;
    let r = requete_token_jwt(&collection, &preuve, &cle_test(), 1000).unwrap();
    match r {
        ReponseJeton::Refus(refus) => assert_eq!(refus.code(), 3),
        _ => panic!("un certificat racine absent doit donner le code 3"),
    }
}

#[test]
fn jeton_ca_invalide_code_4() {
    let collection = collection_avec("abc123", None);
    let mut preuve = preuve_valide("abc123");
    preuve.ca_valide = false;
    let r = requete_token_jwt(&collection, &preuve, &cle_test(), 1000).unwrap();
    match r {
        ReponseJeton::Refus(refus) => assert_eq!(refus.code(), 4),
        _ => panic!("un certificat racine invalide doit donner le code 4"),
    }
}

#[test]
fn jeton_certificat_manquant_code_6() {
    let collection = collection_avec("abc123", None);
    let mut preuve = preuve_valide("abc123");
    preuve.certificat_present = false;
    let r = requete_token_jwt(&collection, &preuve, &cle_test(), 1000).unwrap();
    match r {
        ReponseJeton::Refus(refus) => assert_eq!(refus.code(), 6),
        _ => panic!("un certificat feuille absent doit donner le code 6"),
    }
}

#[test]
fn jeton_certificat_invalide_code_7() {
    let collection = collection_avec("abc123", None);
    let mut preuve = preuve_valide("abc123");
    preuve.certificat_valide = false;
    let r = requete_token_jwt(&collection, &preuve, &cle_test(), 1000).unwrap();
    match r {
        ReponseJeton::Refus(refus) => assert_eq!(refus.code(), 7),
        _ => panic!("un certificat feuille invalide doit donner le code 7"),
    }
}

#[test]
fn jeton_mismatch_fingerprint_code_8() {
    let collection = collection_avec("abc123", None);
    let mut preuve = preuve_valide("abc123");
    preuve.pubkey = "fp-autre".to_string();
    let r = requete_token_jwt(&collection, &preuve, &cle_test(), 1000).unwrap();
    match r {
        ReponseJeton::Refus(refus) => assert_eq!(refus.code(), 8),
        _ => panic!("un fingerprint qui ne correspond pas doit donner le code 8"),
    }
}

#[test]
fn jeton_role_non_supporte_erreur_dure() {
    let collection = collection_avec("abc123", None);
    let mut preuve = preuve_valide("abc123");
    preuve.roles_certificat = vec!["media".to_string()];
    let r = requete_token_jwt(&collection, &preuve, &cle_test(), 1000);
    assert!(matches!(r, Err(ErreurHebergement::RoleNonSupporte)));
}

#[test]
fn jeton_mismatch_idmg_code_5() {
    let collection = collection_avec("abc123", None);
    let mut preuve = preuve_valide("abc123");
    preuve.idmg_certificat = "def456".to_string();
    let r = requete_token_jwt(&collection, &preuve, &cle_test(), 1000).unwrap();
    match r {
        ReponseJeton::Refus(refus) => {
            assert_eq!(refus.code(), 5);
            assert_eq!(refus.message(), "Mismatch idmg certificat/ca");
        }
        _ => panic!("un idmg divergent doit donner le code 5"),
    }
}

#[test]
fn jeton_hebergement_non_configure_code_9() {
    // A valid handshake without a configured record for the tenant: code 9.
    let collection = CollectionClients::new();
    let preuve = preuve_valide("abc123");
    let r = requete_token_jwt(&collection, &preuve, &cle_test(), 1000).unwrap();
    match r {
        ReponseJeton::Refus(refus) => {
            assert_eq!(refus.code(), 9);
            assert_eq!(refus.message(), "Hebergement non configure pour client");
        }
        _ => panic!("un hebergement absent doit donner le code 9"),
    }
}

#[test]
fn jeton_enregistrement_inactif_vaut_absent_code_9() {
    let collection = collection_avec("abc123", Some(false));
    let preuve = preuve_valide("abc123");
    let r = requete_token_jwt(&collection, &preuve, &cle_test(), 1000).unwrap();
    match r {
        ReponseJeton::Refus(refus) => assert_eq!(refus.code(), 9),
        _ => panic!("un enregistrement inactif doit compter comme absent"),
    }
}

#[test]
fn jeton_succes_retourne_deux_jetons() {
    let collection = collection_avec("abc123", None);
    let preuve = preuve_valide("abc123");
    let r = requete_token_jwt(&collection, &preuve, &cle_test(), 1000).unwrap();
    match r {
        ReponseJeton::Succes {
            jwt_readonly,
            jwt_readwrite,
        } => {
            assert_ne!(jwt_readonly, jwt_readwrite);
            assert_eq!(jwt_readonly.matches('.').count(), 2);
            assert_eq!(jwt_readwrite.matches('.').count(), 2);
        }
        _ => panic!("un handshake complet doit emettre deux jetons"),
    }
}

#[test]
fn requete_action_inconnue_sans_reponse() {
    let collection = collection_avec("abc123", None);
    let id = identite(vec![Securite::L3Protege], None);
    let r = consommer_requete(
        &collection,
        &id,
        &TypeMessageRecu::Requete {
            action: "getAutreChose".to_string(),
        },
        None,
        &cle_test(),
        1000,
    );
    match r {
        Err(ErreurHebergement::ActionInconnue { action }) => assert_eq!(action, "getAutreChose"),
        _ => panic!("une action inconnue doit echouer en ActionInconnue"),
    }
}

#[test]
fn requete_liste_par_consommer_requete() {
    let collection = collection_avec("abc123", None);
    let id = identite(vec![Securite::L4Secure], None);
    let r = consommer_requete(
        &collection,
        &id,
        &TypeMessageRecu::Requete {
            action: "getListeClients".to_string(),
        },
        None,
        &cle_test(),
        1000,
    );
    match r {
        Ok(Some(ReponseRequete::Liste(rep))) => {
            assert!(rep.ok);
            assert_eq!(rep.clients.len(), 1);
        }
        _ => panic!("la liste doit etre servie au niveau supreme"),
    }
}

#[test]
fn requete_liste_refusee_en_dessous_du_niveau() {
    let collection = collection_avec("abc123", None);
    let id = identite(vec![Securite::L3Protege], None);
    let r = consommer_requete(
        &collection,
        &id,
        &TypeMessageRecu::Requete {
            action: "getListeClients".to_string(),
        },
        None,
        &cle_test(),
        1000,
    );
    assert!(matches!(
        r,
        Err(ErreurHebergement::AutorisationRefusee { .. })
    ));
}

#[test]
fn requete_jeton_sans_preuve() {
    let collection = collection_avec("abc123", None);
    let id = identite(vec![Securite::L1Public], None);
    let r = consommer_requete(
        &collection,
        &id,
        &TypeMessageRecu::Requete {
            action: "getTokenJwt".to_string(),
        },
        None,
        &cle_test(),
        1000,
    );
    assert!(matches!(r, Err(ErreurHebergement::PayloadInvalide)));
}

#[test]
fn requete_mauvais_type_message() {
    let collection = collection_avec("abc123", None);
    let id = identite(vec![Securite::L3Protege], None);
    let r = consommer_requete(
        &collection,
        &id,
        &TypeMessageRecu::Evenement {
            action: "getListeClients".to_string(),
        },
        None,
        &cle_test(),
        1000,
    );
    assert!(matches!(r, Err(ErreurHebergement::MauvaisTypeMessage)));
}

#[test]
fn liste_conserve_l_ordre_d_insertion() {
    let mut collection = CollectionClients::new();
    for (i, idmg) in ["abc123", "def456", "ghi789"].iter().enumerate() {
        let t = TransactionSauvegarderClient {
            idmg: idmg.to_string(),
            descriptif: None,
            expiration: None,
            roles: None,
            domaines: None,
            data_chiffre: None,
            actif: None,
        };
        transaction_sauvegarder_client(&mut collection, t, 1000 + i as i64).unwrap();
    }
    let id = identite(vec![Securite::L4Secure], None);
    let rep = requete_liste_clients(&collection, &id).unwrap();
    let idmgs: Vec<&str> = rep.clients.iter().map(|c| c.idmg.as_str()).collect();
    assert_eq!(idmgs, vec!["abc123", "def456", "ghi789"]);
}
