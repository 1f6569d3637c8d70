//! Declaration of the domain's queues and routing keys, as plain
//! values: the transport turns them into its own broker configuration.

use vstd::prelude::*;
use vstd::string::StringExecFns;

use crate::securite::Securite;

verus! {

/// Time-to-live of the volatile queue, milliseconds.
pub const DEFAUT_TTL_QUEUE: u32 = 300000;

/// One routing-key binding: key pattern and the exchange it listens on.
pub struct ConfigRoutage {
    pub routing_key: String,
    pub exchange: Securite,
}

/// One queue the domain asks the broker for.
pub enum TypeQueue {
    /// A named queue bound to routing keys.
    Echange {
        nom_queue: String,
        routing_keys: Vec<ConfigRoutage>,
        ttl: u32,
        durable: bool,
        autodelete: bool,
    },
    /// The domain's trigger queue.
    Triggers { nom_domaine: String, securite: Securite },
}

/// A routing key `kind.domain.action`.
pub open spec fn spec_cle_routage(genre: Seq<char>, domaine: Seq<char>, action: Seq<char>) -> Seq<
    char,
> {
    genre + "."@ + domaine + "."@ + action
}

/// Builds the routing key `kind.domain.action`.
pub fn cle_routage(genre: &str, domaine: &str, action: &str) -> (r: String)
    ensures
        r@ == spec_cle_routage(genre@, domaine@, action@),
{
    let mut cle = genre.to_owned();
    cle.append(".");
    cle.append(domaine);
    cle.append(".");
    cle.append(action);
    cle
}

/// The queues of the domain: one volatile queue bound to the two
/// request actions and the one command action, and the trigger queue,
/// on the exchanges each action listens on.
pub fn preparer_queues() -> (queues: Vec<TypeQueue>)
    ensures
        queues@.len() == 2,
        queues@[0] matches TypeQueue::Echange {
            nom_queue,
            routing_keys,
            ttl,
            durable,
            autodelete,
        } && nom_queue@ == "Hebergement/volatils"@ && ttl == DEFAUT_TTL_QUEUE && durable == true
            && autodelete == false && routing_keys@.len() == 3 && routing_keys@[0].routing_key@
            == spec_cle_routage("requete"@, "Hebergement"@, "getListeClients"@)
            && routing_keys@[0].exchange == Securite::L3Protege && routing_keys@[1].routing_key@
            == spec_cle_routage("requete"@, "Hebergement"@, "getTokenJwt"@)
            && routing_keys@[1].exchange == Securite::L1Public && routing_keys@[2].routing_key@
            == spec_cle_routage("commande"@, "Hebergement"@, "sauvegarderClient"@)
            && routing_keys@[2].exchange == Securite::L3Protege,
        queues@[1] matches TypeQueue::Triggers { nom_domaine, securite } && nom_domaine@
            == "Hebergement"@ && securite == Securite::L3Protege,
{
    let mut rk_volatils: Vec<ConfigRoutage> = Vec::new();
    rk_volatils.push(
        ConfigRoutage {
            routing_key: cle_routage("requete", "Hebergement", "getListeClients"),
            exchange: Securite::L3Protege,
        },
    );
    rk_volatils.push(
        ConfigRoutage {
            routing_key: cle_routage("requete", "Hebergement", "getTokenJwt"),
            exchange: Securite::L1Public,
        },
    );
    rk_volatils.push(
        ConfigRoutage {
            routing_key: cle_routage("commande", "Hebergement", "sauvegarderClient"),
            exchange: Securite::L3Protege,
        },
    );

    let mut queues: Vec<TypeQueue> = Vec::new();
    queues.push(
        TypeQueue::Echange {
            nom_queue: "Hebergement/volatils".to_owned(),
            routing_keys: rk_volatils,
            ttl: DEFAUT_TTL_QUEUE,
            durable: true,
            autodelete: false,
        },
    );
    queues.push(
        TypeQueue::Triggers { nom_domaine: "Hebergement".to_owned(), securite: Securite::L3Protege },
    );
    queues
}

/// Index preparation hook for the domain's collections.  The hosting
/// collections need no secondary index: the store keys each client
/// document by its tenant id already.
pub fn preparer_index_mongodb_hebergement() -> (r: Result<(), crate::erreurs::ErreurHebergement>)
    ensures
        r is Ok,
{
    Ok(())
}

} // verus!
