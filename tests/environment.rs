use std::collections::HashMap;

use tcplisten::environment::{environment_plan, EnvChange};

fn apply(env: &mut HashMap<Vec<u8>, Vec<u8>>, plan: Vec<EnvChange>) {
    for change in plan {
        match change {
            EnvChange::Remove(k) => {
                env.remove(&k);
            }
            EnvChange::Assign(k, v) => {
                env.insert(k, v);
            }
        }
    }
}

fn get(env: &HashMap<Vec<u8>, Vec<u8>>, k: &str) -> Option<String> {
    env.get(k.as_bytes()).map(|v| String::from_utf8(v.clone()).unwrap())
}

#[test]
fn plan_order_and_contents() {
    let plan = environment_plan(&b"203.0.113.5".to_vec(), 54321, &b"198.51.100.9".to_vec(), 8080);
    let text: Vec<String> = plan
        .iter()
        .map(|c| match c {
            EnvChange::Remove(k) => format!("-{}", String::from_utf8(k.clone()).unwrap()),
            EnvChange::Assign(k, v) => format!(
                "{}={}",
                String::from_utf8(k.clone()).unwrap(),
                String::from_utf8(v.clone()).unwrap()
            ),
        })
        .collect();
    assert_eq!(
        text,
        vec![
            "-TCPREMOTEHOST",
            "-TCPREMOTEINFO",
            "PROTO=TCP",
            "TCPREMOTEIP=203.0.113.5",
            "TCPREMOTEPORT=54321",
            "-TCPLOCALHOST",
            "TCPLOCALIP=198.51.100.9",
            "TCPLOCALPORT=8080",
        ]
    );
}

#[test]
fn environment_population_clears_legacy_keys() {
    let mut env: HashMap<Vec<u8>, Vec<u8>> = HashMap::new();
    for k in ["TCPREMOTEHOST", "TCPREMOTEINFO", "TCPLOCALHOST", "TCPREMOTEIP", "PATH"] {
        env.insert(k.as_bytes().to_vec(), b"stale".to_vec());
    }
    let plan = environment_plan(&b"203.0.113.5".to_vec(), 54321, &b"198.51.100.9".to_vec(), 8080);
    apply(&mut env, plan);
    assert_eq!(get(&env, "PROTO").as_deref(), Some("TCP"));
    assert_eq!(get(&env, "TCPREMOTEIP").as_deref(), Some("203.0.113.5"));
    assert_eq!(get(&env, "TCPREMOTEPORT").as_deref(), Some("54321"));
    assert_eq!(get(&env, "TCPLOCALIP").as_deref(), Some("198.51.100.9"));
    assert_eq!(get(&env, "TCPLOCALPORT").as_deref(), Some("8080"));
    assert_eq!(get(&env, "TCPREMOTEHOST"), None);
    assert_eq!(get(&env, "TCPREMOTEINFO"), None);
    assert_eq!(get(&env, "TCPLOCALHOST"), None);
    assert_eq!(get(&env, "PATH").as_deref(), Some("stale"));
    assert_eq!(env.len(), 6);
}

#[test]
fn ipv6_peer_and_zero_ports() {
    let mut env: HashMap<Vec<u8>, Vec<u8>> = HashMap::new();
    let plan = environment_plan(&b"::ffff:127.0.0.1".to_vec(), 0, &b"::".to_vec(), 65535);
    apply(&mut env, plan);
    assert_eq!(get(&env, "TCPREMOTEIP").as_deref(), Some("::ffff:127.0.0.1"));
    assert_eq!(get(&env, "TCPREMOTEPORT").as_deref(), Some("0"));
    assert_eq!(get(&env, "TCPLOCALIP").as_deref(), Some("::"));
    assert_eq!(get(&env, "TCPLOCALPORT").as_deref(), Some("65535"));
    assert_eq!(env.len(), 5);
}
