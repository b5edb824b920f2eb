use std::cell::RefCell;
use std::rc::Rc;

use word_chain::clients::Client;
use word_chain::clients::ClientError;
use word_chain::orchestrator::Core;
use word_chain::orchestrator::CoreError;
use word_chain::stores::hashmap::HashmapStore;
use word_chain::stores::Store;

const SEED: [&str; 6] = ["hello", "world", "how", "are", "you", "?"];

/// What a scripted peer answers to a chain call.
enum Script {
    /// Behave like a healthy remote instance: append one word per owed hop
    /// (`count + 1` words, `count` being passed pre-decremented).
    Extend,
    /// Refuse the call.
    Fail,
}

/// An in-process peer that records every chain call it receives.
struct ScriptedPeer {
    url: String,
    healthy: bool,
    script: Script,
    calls: Rc<RefCell<Vec<(Vec<String>, u32)>>>,
}

impl ScriptedPeer {
    fn new(url: &str, healthy: bool, script: Script) -> (Self, Rc<RefCell<Vec<(Vec<String>, u32)>>>) {
        let calls = Rc::new(RefCell::new(Vec::new()));
        let peer = ScriptedPeer {
            url: url.to_string(),
            healthy,
            script,
            calls: calls.clone(),
        };
        (peer, calls)
    }
}

impl Client for ScriptedPeer {
    type E = String;

    fn get_url(&self) -> String {
        self.url.clone()
    }

    fn health(&mut self) -> Result<(), ClientError<String>> {
        if self.healthy {
            Ok(())
        } else {
            Err(ClientError::ServiceUnavailable)
        }
    }

    fn chain(&mut self, word_chain: Vec<String>, count: u32) -> Result<Vec<String>, ClientError<String>> {
        self.calls.borrow_mut().push((word_chain.clone(), count));
        match self.script {
            Script::Extend => {
                let mut out = word_chain;
                for hop in 0..=count {
                    out.push(format!("peer-word-{}", hop));
                }
                Ok(out)
            }
            Script::Fail => Err(ClientError::InternalServerError),
        }
    }
}

fn seeded_core(peers: Vec<ScriptedPeer>) -> Core<HashmapStore, ScriptedPeer> {
    Core::new(HashmapStore::new().unwrap(), peers)
}

fn emptied_core(peers: Vec<ScriptedPeer>) -> Core<HashmapStore, ScriptedPeer> {
    let mut store = HashmapStore::new().unwrap();
    for w in SEED {
        store.remove_word(w.to_string()).unwrap();
    }
    Core::new(store, peers)
}

#[test]
fn chain_with_count_zero_appends_one_word_and_calls_no_peer() {
    let (peer, calls) = ScriptedPeer::new("peer-1", true, Script::Extend);
    let mut core = seeded_core(vec![peer]);
    let out = core.chain(vec!["x".to_string()], 0).unwrap();
    assert_eq!(out.len(), 2);
    assert_eq!(out[0], "x");
    assert!(SEED.contains(&out[1].as_str()));
    assert!(calls.borrow().is_empty());
}

#[test]
fn chain_without_peers_fails_no_connected_services() {
    let mut core = seeded_core(vec![]);
    let r = core.chain(vec!["x".to_string()], 2);
    assert!(matches!(r, Err(CoreError::NoConnectedServices)));
}

#[test]
fn chain_over_one_peer_reaches_the_full_length() {
    let (peer, calls) = ScriptedPeer::new("peer-1", true, Script::Extend);
    let mut core = seeded_core(vec![peer]);
    let out = core.chain(vec!["x".to_string()], 2).unwrap();
    // 1 input word + 1 local word + 1 word per remaining hop.
    assert_eq!(out.len(), 4);
    assert_eq!(out[0], "x");
    assert!(SEED.contains(&out[1].as_str()));
    // The peer saw the extended chain and the decremented count, once.
    let calls = calls.borrow();
    assert_eq!(calls.len(), 1);
    assert_eq!(calls[0].0.len(), 2);
    assert_eq!(calls[0].1, 1);
}

#[test]
fn chain_on_empty_store_fails_empty_before_peer_concerns() {
    let (peer, calls) = ScriptedPeer::new("peer-1", true, Script::Extend);
    let mut core = emptied_core(vec![peer]);
    let r = core.chain(vec!["x".to_string()], 2);
    assert!(matches!(r, Err(CoreError::Empty)));
    assert!(calls.borrow().is_empty());
}

#[test]
fn chain_wraps_a_failing_peer_call() {
    let (peer, _calls) = ScriptedPeer::new("peer-1", true, Script::Fail);
    let mut core = seeded_core(vec![peer]);
    let r = core.chain(vec!["x".to_string()], 1);
    assert!(matches!(
        r,
        Err(CoreError::ClientError(ClientError::InternalServerError))
    ));
}

#[test]
fn chain_resolve_passes_a_peer_answer_through() {
    let answer = vec!["a".to_string(), "b".to_string()];
    let r = Core::<HashmapStore, ScriptedPeer>::chain_resolve(Ok(answer.clone()));
    assert_eq!(r.unwrap(), answer);
}

#[test]
fn chain_resolve_wraps_a_peer_failure() {
    let r = Core::<HashmapStore, ScriptedPeer>::chain_resolve(Err(ClientError::BadRequest(
        "bad count".to_string(),
    )));
    assert!(matches!(
        r,
        Err(CoreError::ClientError(ClientError::BadRequest(m))) if m == "bad count"
    ));
}

#[test]
fn health_check_passes_with_no_peers() {
    let mut core = seeded_core(vec![]);
    assert!(core.health_check().is_ok());
}

#[test]
fn health_check_passes_with_healthy_peers() {
    let (a, _) = ScriptedPeer::new("peer-1", true, Script::Extend);
    let (b, _) = ScriptedPeer::new("peer-2", true, Script::Extend);
    let mut core = seeded_core(vec![a, b]);
    assert!(core.health_check().is_ok());
}

#[test]
fn health_check_fails_fast_on_an_unhealthy_peer() {
    let (a, _) = ScriptedPeer::new("peer-1", true, Script::Extend);
    let (b, _) = ScriptedPeer::new("peer-2", false, Script::Extend);
    let mut core = seeded_core(vec![a, b]);
    assert!(matches!(
        core.health_check(),
        Err(CoreError::ServiceUnavailable)
    ));
}

#[test]
fn ready_check_always_passes() {
    let core = seeded_core(vec![]);
    assert!(core.ready_check().is_ok());
}

#[test]
fn get_word_maps_not_found() {
    let core = seeded_core(vec![]);
    assert_eq!(core.get_word("hello".to_string()).unwrap(), "hello");
    let r = core.get_word("zebra".to_string());
    assert!(matches!(r, Err(CoreError::NotFound(w)) if w == "zebra"));
}

#[test]
fn add_word_maps_already_exists() {
    let mut core = seeded_core(vec![]);
    core.add_word("verse".to_string()).unwrap();
    assert_eq!(core.get_word("verse".to_string()).unwrap(), "verse");
    let r = core.add_word("hello".to_string());
    assert!(matches!(r, Err(CoreError::AlreadyExists(w)) if w == "hello"));
}

#[test]
fn delete_word_maps_not_found() {
    let mut core = seeded_core(vec![]);
    core.delete_word("hello".to_string()).unwrap();
    assert!(matches!(
        core.get_word("hello".to_string()),
        Err(CoreError::NotFound(_))
    ));
    let r = core.delete_word("hello".to_string());
    assert!(matches!(r, Err(CoreError::NotFound(w)) if w == "hello"));
}

#[test]
fn random_word_maps_empty_and_stays_in_the_store() {
    let core = emptied_core(vec![]);
    assert!(matches!(core.random_word(), Err(CoreError::Empty)));
    let core = seeded_core(vec![]);
    for _ in 0..50 {
        let w = core.random_word().unwrap();
        assert!(SEED.contains(&w.as_str()));
    }
}

#[test]
fn chain_picks_each_peer_eventually() {
    let (a, calls_a) = ScriptedPeer::new("peer-1", true, Script::Extend);
    let (b, calls_b) = ScriptedPeer::new("peer-2", true, Script::Extend);
    let mut core = seeded_core(vec![a, b]);
    for _ in 0..200 {
        core.chain(vec!["x".to_string()], 1).unwrap();
    }
    // A uniform pick over two peers misses one of them in 200 tries with
    // vanishing probability.
    assert!(calls_a.borrow().len() > 0);
    assert!(calls_b.borrow().len() > 0);
}
