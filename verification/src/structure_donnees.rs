//! Durable data of the domain: the hosting-client record, its opaque
//! quota sub-record, the hosted-file record, and the in-memory image of
//! the hosting-client collection with its key invariant.
//!
//! The document store itself is an external collaborator; the core only
//! relies on it for atomic single-document upserts.  The collection image
//! here carries the state a handler reads and the state a transaction
//! leaves behind, one row per tenant id.  Contracts speak of rows through
//! their mathematical model [`ClientModele`].

use vstd::prelude::*;
use vstd::pervasive::VecAdditionalExecFns;

verus! {

/// Opaque structured quota sub-record; never decoded by the core.
#[derive(Clone, Copy, Debug, PartialEq, Eq, Structural)]
pub struct QuotaClient {}

/// One hosting-client record: the durable configuration of a tenant,
/// keyed by its tenant id (`idmg`).
pub struct ClientHebergementRow {
    /// Tenant id: fingerprint chain of the tenant's root certificate.
    pub idmg: String,
    /// Display string.
    pub descriptif: Option<String>,
    /// Services hosted for the tenant, by role name.
    pub roles: Option<Vec<String>>,
    /// Services hosted for the tenant, by domain name.
    pub domaines: Option<Vec<String>>,
    /// Contact string; written by flows outside this core.
    pub contact: Option<String>,
    /// Information string; written by flows outside this core.
    pub information: Option<String>,
    /// Expiration of the hosting arrangement, epoch seconds; absent means
    /// no expiry.
    pub expiration: Option<i64>,
    /// Opaque quota sub-record; written by flows outside this core.
    pub quota: Option<QuotaClient>,
    /// Opaque ciphertext blob, stored as handed in, never decrypted.
    pub data_chiffre: Option<String>,
    /// Whether the tenant is active; inactive tenants are kept, never
    /// deleted.
    pub actif: bool,
    /// Server time of the first accepted mutation, epoch seconds; set
    /// exactly once.
    pub date_creation: i64,
    /// Server time of the last accepted mutation, epoch seconds.
    pub date_modification: i64,
}

/// Mathematical model of one hosting-client record.
pub ghost struct ClientModele {
    pub idmg: Seq<char>,
    pub descriptif: Option<Seq<char>>,
    pub roles: Option<Seq<Seq<char>>>,
    pub domaines: Option<Seq<Seq<char>>>,
    pub contact: Option<Seq<char>>,
    pub information: Option<Seq<char>>,
    pub expiration: Option<i64>,
    pub quota: Option<QuotaClient>,
    pub data_chiffre: Option<Seq<char>>,
    pub actif: bool,
    pub date_creation: i64,
    pub date_modification: i64,
}

impl View for ClientHebergementRow {
    type V = ClientModele;

    open spec fn view(&self) -> ClientModele {
        ClientModele {
            idmg: self.idmg@,
            descriptif: self.descriptif.deep_view(),
            roles: self.roles.deep_view(),
            domaines: self.domaines.deep_view(),
            contact: self.contact.deep_view(),
            information: self.information.deep_view(),
            expiration: self.expiration,
            quota: self.quota,
            data_chiffre: self.data_chiffre.deep_view(),
            actif: self.actif,
            date_creation: self.date_creation,
            date_modification: self.date_modification,
        }
    }
}

impl DeepView for ClientHebergementRow {
    type V = ClientModele;

    open spec fn deep_view(&self) -> ClientModele {
        self.view()
    }
}

impl ClientHebergementRow {
    /// A field-for-field copy of the row.
    pub fn copier(&self) -> (r: ClientHebergementRow)
        ensures
            r@ == self@,
    {
        ClientHebergementRow {
            idmg: self.idmg.clone(),
            descriptif: self.descriptif.clone(),
            roles: cloner_chaines_opt(&self.roles),
            domaines: cloner_chaines_opt(&self.domaines),
            contact: self.contact.clone(),
            information: self.information.clone(),
            expiration: self.expiration,
            quota: self.quota,
            data_chiffre: self.data_chiffre.clone(),
            actif: self.actif,
            date_creation: self.date_creation,
            date_modification: self.date_modification,
        }
    }
}

/// A copy of an optional list of strings; the copy has the same model.
pub fn cloner_chaines_opt(chaines: &Option<Vec<String>>) -> (r: Option<Vec<String>>)
    ensures
        r.deep_view() == chaines.deep_view(),
{
    match chaines {
        Some(liste) => {
            let copie = liste.clone();
            proof {
                assert(copie.deep_view() =~= liste.deep_view());
            }
            Some(copie)
        },
        None => None,
    }
}

/// One hosted-file record.  Bookkeeping for the hosted-file flows, which
/// are outside this core; kept here because it belongs to the domain's
/// durable data.
pub struct FichiersHeberges {
    /// Unique file identifier.
    pub fuuid: String,
    /// Tenant the file is hosted for.
    pub idmg: String,
    /// Size of the stored ciphertext, bytes.
    pub taille_chiffre: i64,
    /// Last time the file was claimed, epoch seconds.
    pub derniere_reclamation: i64,
}

/// In-memory image of the hosting-client collection: one row per tenant.
pub struct CollectionClients {
    /// The rows, in insertion order.
    pub rows: Vec<ClientHebergementRow>,
}

impl View for CollectionClients {
    type V = Seq<ClientModele>;

    open spec fn view(&self) -> Seq<ClientModele> {
        self.rows.deep_view()
    }
}

/// Tenant ids are unique across `rows`.
pub open spec fn spec_unicite(rows: Seq<ClientModele>) -> bool {
    forall|i: int, j: int|
        0 <= i < rows.len() && 0 <= j < rows.len() && i != j ==> rows[i].idmg != rows[j].idmg
}

/// There is a row with tenant id `idmg` in `rows`.
pub open spec fn spec_contient_client(rows: Seq<ClientModele>, idmg: Seq<char>) -> bool {
    exists|i: int| 0 <= i < rows.len() && rows[i].idmg == idmg
}

/// Index of the row with tenant id `idmg`; meaningful only when
/// [`spec_contient_client`] holds and under [`CollectionClients::inv`],
/// which makes the row unique.
pub open spec fn spec_indice_client(rows: Seq<ClientModele>, idmg: Seq<char>) -> int {
    choose|i: int| 0 <= i < rows.len() && rows[i].idmg == idmg
}

/// The row with tenant id `idmg`, when there is one.
pub open spec fn spec_client(rows: Seq<ClientModele>, idmg: Seq<char>) -> Option<ClientModele> {
    if spec_contient_client(rows, idmg) {
        Some(rows[spec_indice_client(rows, idmg)])
    } else {
        None
    }
}

impl CollectionClients {
    /// Key invariant: tenant ids are unique across rows.
    pub open spec fn inv(self) -> bool {
        spec_unicite(self@)
    }

    /// An empty collection.
    pub fn new() -> (c: CollectionClients)
        ensures
            c.inv(),
            c@.len() == 0,
    {
        CollectionClients { rows: Vec::new() }
    }

    /// Number of rows.
    pub fn longueur(&self) -> (n: usize)
        ensures
            n == self@.len(),
    {
        self.rows.len()
    }

    /// Index of the row keyed by `idmg`, when there is one.
    pub fn chercher_indice(&self, idmg: &String) -> (r: Option<usize>)
        requires
            self.inv(),
        ensures
            match r {
                Some(i) => i < self@.len() && self@[i as int].idmg == idmg@ && i as int
                    == spec_indice_client(self@, idmg@),
                None => !spec_contient_client(self@, idmg@),
            },
    {
        let mut i: usize = 0;
        while i < self.rows.len()
            invariant
                self.inv(),
                i <= self@.len(),
                self@.len() == self.rows@.len(),
                forall|j: int| 0 <= j < i ==> self@[j].idmg != idmg@,
            decreases self@.len() - i,
        {
            if self.rows[i].idmg.eq(idmg) {
                proof {
                    assert(self@[i as int].idmg == idmg@);
                    let k = spec_indice_client(self@, idmg@);
                    assert(0 <= k < self@.len() && self@[k].idmg == idmg@);
                }
                return Some(i);
            }
            i = i + 1;
        }
        None
    }

    /// The row keyed by `idmg`, when there is one.
    pub fn trouver_client(&self, idmg: &String) -> (r: Option<&ClientHebergementRow>)
        requires
            self.inv(),
        ensures
            match r {
                Some(row) => spec_client(self@, idmg@) == Some(row@),
                None => spec_client(self@, idmg@) is None,
            },
    {
        match self.chercher_indice(idmg) {
            Some(i) => Some(&self.rows[i]),
            None => None,
        }
    }
}

} // verus!
