use hebergement::autorisation::CategorieAction;
use hebergement::autorisation::ContexteAutorise;
use hebergement::autorisation::Identite;
use hebergement::autorisation::seuil_categorie;
use hebergement::autorisation::verifier_autorisation;
use hebergement::erreurs::ErreurHebergement;
use hebergement::securite::Securite;
use hebergement::securite::niveau_maximal;

fn identite(
    roles: Vec<&str>,
    exchanges: Vec<Securite>,
    delegation: Option<&str>,
    user_id: Option<&str>,
) -> Identite {
    Identite {
        fingerprint: "fp-test".to_string(),
        roles: roles.into_iter().map(|r| r.to_string()).collect(),
        exchanges,
        delegation_globale: delegation.map(|d| d.to_string()),
        idmg: None,
        user_id: user_id.map(|u| u.to_string()),
    }
}

#[test]
fn niveau_maximal_vide_et_plein() {
    assert_eq!(niveau_maximal(&vec![]), 0);
    assert_eq!(niveau_maximal(&vec![Securite::L1Public]), 1);
    assert_eq!(
        niveau_maximal(&vec![Securite::L1Public, Securite::L4Secure, Securite::L2Prive]),
        4
    );
    assert_eq!(
        niveau_maximal(&vec![Securite::L3Protege, Securite::L2Prive]),
        3
    );
}

#[test]
fn seuils_des_categories() {
    assert_eq!(seuil_categorie(CategorieAction::EcritureClient), 3);
    assert_eq!(seuil_categorie(CategorieAction::LectureClients), 4);
    assert_eq!(seuil_categorie(CategorieAction::EmissionJeton), 1);
}

#[test]
fn admission_par_niveau_echange() {
    let id = identite(vec![], vec![Securite::L3Protege], None, None);
    let r = verifier_autorisation(&id, CategorieAction::EcritureClient);
    assert!(matches!(r, Ok(ContexteAutorise::Echange)));

    let id = identite(vec![], vec![Securite::L4Secure], None, None);
    let r = verifier_autorisation(&id, CategorieAction::LectureClients);
    assert!(matches!(r, Ok(ContexteAutorise::Echange)));

    let id = identite(vec![], vec![Securite::L1Public], None, None);
    let r = verifier_autorisation(&id, CategorieAction::EmissionJeton);
    assert!(matches!(r, Ok(ContexteAutorise::Echange)));
}

#[test]
fn admission_refusee_sous_le_seuil() {
    let id = identite(vec![], vec![Securite::L2Prive], None, None);
    let r = verifier_autorisation(&id, CategorieAction::EcritureClient);
    assert!(matches!(
        r,
        Err(ErreurHebergement::AutorisationRefusee { .. })
    ));

    let id = identite(vec![], vec![Securite::L3Protege], None, None);
    let r = verifier_autorisation(&id, CategorieAction::LectureClients);
    assert!(matches!(
        r,
        Err(ErreurHebergement::AutorisationRefusee { .. })
    ));

    let id = identite(vec![], vec![], None, None);
    let r = verifier_autorisation(&id, CategorieAction::EmissionJeton);
    assert!(matches!(
        r,
        Err(ErreurHebergement::AutorisationRefusee { .. })
    ));
}

#[test]
fn admission_par_delegation_proprietaire() {
    let id = identite(vec![], vec![Securite::L1Public], Some("proprietaire"), None);
    let r = verifier_autorisation(&id, CategorieAction::LectureClients);
    assert!(matches!(r, Ok(ContexteAutorise::Delegation)));

    let id = identite(vec![], vec![], Some("autre"), None);
    let r = verifier_autorisation(&id, CategorieAction::EcritureClient);
    assert!(matches!(
        r,
        Err(ErreurHebergement::AutorisationRefusee { .. })
    ));
}

#[test]
fn admission_par_role_prive_avec_user_id() {
    let id = identite(vec!["compte_prive"], vec![], None, Some("usager-1"));
    let r = verifier_autorisation(&id, CategorieAction::EcritureClient);
    match r {
        Ok(ContexteAutorise::Usager { user_id }) => assert_eq!(user_id, "usager-1"),
        autre => panic!("contexte inattendu: {:?}", autre.is_ok()),
    }
}

#[test]
fn role_prive_sans_user_id_retombe_sur_le_niveau() {
    let id = identite(vec!["compte_prive"], vec![Securite::L3Protege], None, None);
    let r = verifier_autorisation(&id, CategorieAction::EcritureClient);
    assert!(matches!(r, Ok(ContexteAutorise::Echange)));

    let id = identite(vec!["compte_prive"], vec![], None, None);
    let r = verifier_autorisation(&id, CategorieAction::EcritureClient);
    assert!(matches!(
        r,
        Err(ErreurHebergement::AutorisationRefusee { .. })
    ));
}

#[test]
fn precedence_usager_avant_niveau() {
    let id = identite(
        vec!["compte_prive"],
        vec![Securite::L4Secure],
        Some("proprietaire"),
        Some("usager-2"),
    );
    let r = verifier_autorisation(&id, CategorieAction::EcritureClient);
    assert!(matches!(r, Ok(ContexteAutorise::Usager { .. })));
}
