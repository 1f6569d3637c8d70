//! The transaction applier: idempotent upsert of hosting-client
//! configuration, and the routing of validated transactions to it.
//!
//! The merge policy is the core idempotence mechanism and is stated
//! explicitly by [`spec_applique_sauvegarde`]:
//! - set only at creation: `date_creation` (server clock of the first
//!   accepted mutation) and the key `idmg`;
//! - always overwritten from the payload: `descriptif`, `roles`,
//!   `domaines`, `data_chiffre`, `expiration`, and `actif` (default
//!   `true` when the payload omits it);
//! - always the server clock: `date_modification`;
//! - left to other flows: `contact`, `information`, `quota` (absent on
//!   insert, preserved on update).

use vstd::prelude::*;
use vstd::pervasive::VecAdditionalExecFns;

use crate::erreurs::ErreurHebergement;
use crate::structure_donnees::ClientHebergementRow;
use crate::structure_donnees::ClientModele;
use crate::structure_donnees::CollectionClients;
use crate::structure_donnees::spec_client;
use crate::structure_donnees::spec_contient_client;
use crate::structure_donnees::spec_indice_client;
use crate::structure_donnees::spec_unicite;

verus! {

/// Payload of the command and transaction that persist a hosting client.
pub struct TransactionSauvegarderClient {
    /// Tenant id the record is keyed by.
    pub idmg: String,
    /// Display string.
    pub descriptif: Option<String>,
    /// Expiration of the hosting arrangement, epoch seconds.
    pub expiration: Option<i64>,
    /// Services hosted for the tenant, by role name.
    pub roles: Option<Vec<String>>,
    /// Services hosted for the tenant, by domain name.
    pub domaines: Option<Vec<String>>,
    /// Opaque ciphertext blob, stored as handed in.
    pub data_chiffre: Option<String>,
    /// Whether the tenant is active; omitted means active.
    pub actif: Option<bool>,
}

/// Mathematical model of the payload.
pub ghost struct TransactionModele {
    pub idmg: Seq<char>,
    pub descriptif: Option<Seq<char>>,
    pub expiration: Option<i64>,
    pub roles: Option<Seq<Seq<char>>>,
    pub domaines: Option<Seq<Seq<char>>>,
    pub data_chiffre: Option<Seq<char>>,
    pub actif: Option<bool>,
}

impl View for TransactionSauvegarderClient {
    type V = TransactionModele;

    open spec fn view(&self) -> TransactionModele {
        TransactionModele {
            idmg: self.idmg@,
            descriptif: self.descriptif.deep_view(),
            expiration: self.expiration,
            roles: self.roles.deep_view(),
            domaines: self.domaines.deep_view(),
            data_chiffre: self.data_chiffre.deep_view(),
            actif: self.actif,
        }
    }
}

/// The `actif` flag the record receives: the payload's, or `true` when
/// the payload omits it.
pub open spec fn spec_actif_effectif(transaction: TransactionModele) -> bool {
    match transaction.actif {
        Some(a) => a,
        None => true,
    }
}

/// The record after an update: payload fields overwrite, `idmg`,
/// `date_creation` and the fields of other flows are preserved, and
/// `date_modification` takes the server clock.
pub open spec fn spec_fusion(
    ancien: ClientModele,
    transaction: TransactionModele,
    now: i64,
) -> ClientModele {
    ClientModele {
        idmg: ancien.idmg,
        descriptif: transaction.descriptif,
        roles: transaction.roles,
        domaines: transaction.domaines,
        contact: ancien.contact,
        information: ancien.information,
        expiration: transaction.expiration,
        quota: ancien.quota,
        data_chiffre: transaction.data_chiffre,
        actif: spec_actif_effectif(transaction),
        date_creation: ancien.date_creation,
        date_modification: now,
    }
}

/// The record after a first insert: both clocks take the server clock,
/// and the fields of other flows are absent.
pub open spec fn spec_nouveau(transaction: TransactionModele, now: i64) -> ClientModele {
    ClientModele {
        idmg: transaction.idmg,
        descriptif: transaction.descriptif,
        roles: transaction.roles,
        domaines: transaction.domaines,
        contact: None,
        information: None,
        expiration: transaction.expiration,
        quota: None,
        data_chiffre: transaction.data_chiffre,
        actif: spec_actif_effectif(transaction),
        date_creation: now,
        date_modification: now,
    }
}

/// The collection after the upsert: the row keyed by the payload's
/// tenant id is replaced according to the merge policy, or appended when
/// no such row exists.  Every other row is untouched.
pub open spec fn spec_applique_sauvegarde(
    rows: Seq<ClientModele>,
    transaction: TransactionModele,
    now: i64,
) -> Seq<ClientModele> {
    if spec_contient_client(rows, transaction.idmg) {
        let i = spec_indice_client(rows, transaction.idmg);
        rows.update(i, spec_fusion(rows[i], transaction, now))
    } else {
        rows.push(spec_nouveau(transaction, now))
    }
}

/// Applies a validated save-client payload to the collection image:
/// the idempotent upsert keyed by `idmg`.  Never fails; produces no
/// response body.
pub fn transaction_sauvegarder_client(
    collection: &mut CollectionClients,
    transaction: TransactionSauvegarderClient,
    now: i64,
) -> (r: Result<(), ErreurHebergement>)
    requires
        old(collection).inv(),
    ensures
        final(collection).inv(),
        r is Ok,
        final(collection)@ == spec_applique_sauvegarde(old(collection)@, transaction@, now),
{
    let ghost avant = collection@;
    let actif = match transaction.actif {
        Some(a) => a,
        None => true,
    };
    match collection.chercher_indice(&transaction.idmg) {
        Some(i) => {
            let ancien = &collection.rows[i];
            let ligne = ClientHebergementRow {
                idmg: ancien.idmg.clone(),
                descriptif: transaction.descriptif,
                roles: transaction.roles,
                domaines: transaction.domaines,
                contact: ancien.contact.clone(),
                information: ancien.information.clone(),
                expiration: transaction.expiration,
                quota: ancien.quota,
                data_chiffre: transaction.data_chiffre,
                actif,
                date_creation: ancien.date_creation,
                date_modification: now,
            };
            collection.rows.set(i, ligne);
            proof {
                assert(collection@ =~= avant.update(
                    i as int,
                    spec_fusion(avant[i as int], transaction@, now),
                ));
                assert forall|a: int, b: int|
                    0 <= a < collection@.len() && 0 <= b < collection@.len() && a != b implies
                    collection@[a].idmg != collection@[b].idmg by {
                    assert(avant[a].idmg != avant[b].idmg);
                }
            }
            Ok(())
        },
        None => {
            let ligne = ClientHebergementRow {
                idmg: transaction.idmg,
                descriptif: transaction.descriptif,
                roles: transaction.roles,
                domaines: transaction.domaines,
                contact: None,
                information: None,
                expiration: transaction.expiration,
                quota: None,
                data_chiffre: transaction.data_chiffre,
                actif,
                date_creation: now,
                date_modification: now,
            };
            collection.rows.push(ligne);
            proof {
                assert(collection@ =~= avant.push(spec_nouveau(transaction@, now)));
                assert forall|a: int, b: int|
                    0 <= a < collection@.len() && 0 <= b < collection@.len() && a != b implies
                    collection@[a].idmg != collection@[b].idmg by {
                    if a < avant.len() && b < avant.len() {
                        assert(avant[a].idmg != avant[b].idmg);
                    }
                }
            }
            Ok(())
        },
    }
}

/// Routes a validated transaction to its applier by action name.  The
/// only routed action is the save-client transaction; any other name
/// fails with `ActionInconnue`.  A routed action whose payload is absent
/// fails with `PayloadInvalide`.
pub fn aiguillage_transaction(
    collection: &mut CollectionClients,
    action: &String,
    transaction: Option<TransactionSauvegarderClient>,
    now: i64,
) -> (r: Result<(), ErreurHebergement>)
    requires
        old(collection).inv(),
    ensures
        final(collection).inv(),
        action@ == "sauvegarderClient"@ && transaction is Some ==> r is Ok && final(collection)@
            == spec_applique_sauvegarde(old(collection)@, transaction.unwrap()@, now),
        action@ == "sauvegarderClient"@ && transaction is None ==> (r matches Err(
            ErreurHebergement::PayloadInvalide,
        )) && final(collection)@ == old(collection)@,
        action@ != "sauvegarderClient"@ ==> (r matches Err(ErreurHebergement::ActionInconnue {
            action: a,
        }) && a@ == action@) && final(collection)@ == old(collection)@,
{
    if action.eq(&"sauvegarderClient".to_owned()) {
        match transaction {
            Some(t) => transaction_sauvegarder_client(collection, t, now),
            None => Err(ErreurHebergement::PayloadInvalide),
        }
    } else {
        Err(ErreurHebergement::ActionInconnue { action: action.clone() })
    }
}

/// What one upsert does to the row keyed by the payload's tenant id:
/// uniqueness of keys is preserved, the row exists afterwards and is the
/// merge of the previous row with the payload (or a fresh record), every
/// other row keeps its place and value, and the length grows exactly on
/// a first insert.
pub proof fn lemme_applique_client(rows: Seq<ClientModele>, t: TransactionModele, now: i64)
    requires
        spec_unicite(rows),
    ensures
        spec_unicite(spec_applique_sauvegarde(rows, t, now)),
        spec_contient_client(spec_applique_sauvegarde(rows, t, now), t.idmg),
        spec_client(spec_applique_sauvegarde(rows, t, now), t.idmg) == Some(
            match spec_client(rows, t.idmg) {
                Some(ancien) => spec_fusion(ancien, t, now),
                None => spec_nouveau(t, now),
            },
        ),
        spec_applique_sauvegarde(rows, t, now).len() == if spec_contient_client(rows, t.idmg) {
            rows.len()
        } else {
            rows.len() + 1
        },
        forall|j: int|
            0 <= j < rows.len() && rows[j].idmg != t.idmg ==> spec_applique_sauvegarde(
                rows,
                t,
                now,
            )[j] == rows[j],
{
    let r = spec_applique_sauvegarde(rows, t, now);
    if spec_contient_client(rows, t.idmg) {
        let i = spec_indice_client(rows, t.idmg);
        assert(0 <= i < rows.len() && rows[i].idmg == t.idmg);
        assert(r =~= rows.update(i, spec_fusion(rows[i], t, now)));
        assert(r[i].idmg == t.idmg);
        assert(spec_contient_client(r, t.idmg));
        assert forall|a: int, b: int|
            0 <= a < r.len() && 0 <= b < r.len() && a != b implies r[a].idmg != r[b].idmg by {
            assert(rows[a].idmg != rows[b].idmg);
        }
        let k = spec_indice_client(r, t.idmg);
        assert(0 <= k < r.len() && r[k].idmg == t.idmg);
        assert(k == i);
    } else {
        assert(r =~= rows.push(spec_nouveau(t, now)));
        let n = rows.len() as int;
        assert(r[n].idmg == t.idmg);
        assert(spec_contient_client(r, t.idmg));
        assert forall|j: int| 0 <= j < n implies rows[j].idmg != t.idmg by {
            assert(!spec_contient_client(rows, t.idmg));
        }
        assert forall|a: int, b: int|
            0 <= a < r.len() && 0 <= b < r.len() && a != b implies r[a].idmg != r[b].idmg by {
            if a < n && b < n {
                assert(rows[a].idmg != rows[b].idmg);
            }
        }
        let k = spec_indice_client(r, t.idmg);
        assert(0 <= k < r.len() && r[k].idmg == t.idmg);
        assert(k == n);
    }
}

/// Submitting save-client twice for the same tenant id converges to one
/// record: `date_creation` is unchanged by the second write, and
/// `date_modification` strictly increases with the server clock.
pub proof fn lemme_sauvegarde_deux_fois(
    rows: Seq<ClientModele>,
    t1: TransactionModele,
    t2: TransactionModele,
    n1: i64,
    n2: i64,
)
    requires
        spec_unicite(rows),
        t1.idmg == t2.idmg,
        n1 < n2,
    ensures
        ({
            let apres1 = spec_applique_sauvegarde(rows, t1, n1);
            let apres2 = spec_applique_sauvegarde(apres1, t2, n2);
            &&& spec_client(apres1, t1.idmg) is Some
            &&& spec_client(apres2, t2.idmg) is Some
            &&& spec_client(apres2, t2.idmg).unwrap().date_creation == spec_client(
                apres1,
                t1.idmg,
            ).unwrap().date_creation
            &&& spec_client(apres2, t2.idmg).unwrap().date_modification > spec_client(
                apres1,
                t1.idmg,
            ).unwrap().date_modification
            &&& apres2.len() == apres1.len()
        }),
{
    lemme_applique_client(rows, t1, n1);
    let apres1 = spec_applique_sauvegarde(rows, t1, n1);
    lemme_applique_client(apres1, t2, n2);
}

/// A save-client for a never-seen tenant id creates exactly one record
/// for it, whose `date_creation` equals its `date_modification`.
pub proof fn lemme_sauvegarde_creation(rows: Seq<ClientModele>, t: TransactionModele, now: i64)
    requires
        spec_unicite(rows),
        !spec_contient_client(rows, t.idmg),
    ensures
        ({
            let r = spec_applique_sauvegarde(rows, t, now);
            &&& r.len() == rows.len() + 1
            &&& exists|i: int|
                0 <= i < r.len() && r[i].idmg == t.idmg && r[i].date_creation == now
                    && r[i].date_modification == now && forall|j: int|
                    0 <= j < r.len() && j != i ==> r[j].idmg != t.idmg
        }),
{
    lemme_applique_client(rows, t, now);
    let r = spec_applique_sauvegarde(rows, t, now);
    let i = spec_indice_client(r, t.idmg);
    assert(r[i] == spec_nouveau(t, now));
    assert forall|j: int| 0 <= j < r.len() && j != i implies r[j].idmg != t.idmg by {
        assert(spec_unicite(r));
    }
    assert(0 <= i < r.len() && r[i].idmg == t.idmg && r[i].date_creation == now
        && r[i].date_modification == now && forall|j: int|
        0 <= j < r.len() && j != i ==> r[j].idmg != t.idmg);
}

} // verus!
