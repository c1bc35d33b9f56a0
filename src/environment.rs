//! The environment handed to the command: legacy keys removed, addressing set.
use vstd::prelude::*;
use crate::decimal::{dec, render_decimal};

verus! {

/// One change to the process environment.
#[derive(Debug, Clone)]
pub enum EnvChange {
    Remove(Vec<u8>),
    Assign(Vec<u8>, Vec<u8>),
}

/// What an environment change does, over byte sequences.
pub enum EnvOp {
    Remove(Seq<u8>),
    Assign(Seq<u8>, Seq<u8>),
}

impl View for EnvChange {
    type V = EnvOp;

    open spec fn view(&self) -> EnvOp {
        match self {
            EnvChange::Remove(k) => EnvOp::Remove(k@),
            EnvChange::Assign(k, v) => EnvOp::Assign(k@, v@),
        }
    }
}

/// An environment: variable names to values.
pub type Env = Map<Seq<u8>, Seq<u8>>;

pub open spec fn step(env: Env, op: EnvOp) -> Env {
    match op {
        EnvOp::Remove(k) => env.remove(k),
        EnvOp::Assign(k, v) => env.insert(k, v),
    }
}

/// The environment after the changes, applied in order.
pub open spec fn apply(env: Env, ops: Seq<EnvOp>) -> Env
    decreases ops.len(),
{
    if ops.len() == 0 {
        env
    } else {
        step(apply(env, ops.drop_last()), ops.last())
    }
}

/// `PROTO`
pub open spec fn key_proto() -> Seq<u8> {
    seq![80u8, 82u8, 79u8, 84u8, 79u8]
}

/// `TCP`
pub open spec fn value_tcp() -> Seq<u8> {
    seq![84u8, 67u8, 80u8]
}

/// `TCPREMOTEIP`
pub open spec fn key_remote_ip() -> Seq<u8> {
    seq![84u8, 67u8, 80u8, 82u8, 69u8, 77u8, 79u8, 84u8, 69u8, 73u8, 80u8]
}

/// `TCPREMOTEPORT`
pub open spec fn key_remote_port() -> Seq<u8> {
    seq![84u8, 67u8, 80u8, 82u8, 69u8, 77u8, 79u8, 84u8, 69u8, 80u8, 79u8, 82u8, 84u8]
}

/// `TCPREMOTEHOST`
pub open spec fn key_remote_host() -> Seq<u8> {
    seq![84u8, 67u8, 80u8, 82u8, 69u8, 77u8, 79u8, 84u8, 69u8, 72u8, 79u8, 83u8, 84u8]
}

/// `TCPREMOTEINFO`
pub open spec fn key_remote_info() -> Seq<u8> {
    seq![84u8, 67u8, 80u8, 82u8, 69u8, 77u8, 79u8, 84u8, 69u8, 73u8, 78u8, 70u8, 79u8]
}

/// `TCPLOCALIP`
pub open spec fn key_local_ip() -> Seq<u8> {
    seq![84u8, 67u8, 80u8, 76u8, 79u8, 67u8, 65u8, 76u8, 73u8, 80u8]
}

/// `TCPLOCALPORT`
pub open spec fn key_local_port() -> Seq<u8> {
    seq![84u8, 67u8, 80u8, 76u8, 79u8, 67u8, 65u8, 76u8, 80u8, 79u8, 82u8, 84u8]
}

/// `TCPLOCALHOST`
pub open spec fn key_local_host() -> Seq<u8> {
    seq![84u8, 67u8, 80u8, 76u8, 79u8, 67u8, 65u8, 76u8, 72u8, 79u8, 83u8, 84u8]
}

/// The changes, in order: remote legacy keys removed, protocol and remote
/// address set, local legacy key removed, local address set.
pub open spec fn plan(remote_ip: Seq<u8>, remote_port: u16, local_ip: Seq<u8>, local_port: u16) -> Seq<EnvOp> {
    seq![
        EnvOp::Remove(key_remote_host()),
        EnvOp::Remove(key_remote_info()),
        EnvOp::Assign(key_proto(), value_tcp()),
        EnvOp::Assign(key_remote_ip(), remote_ip),
        EnvOp::Assign(key_remote_port(), dec(remote_port as nat)),
        EnvOp::Remove(key_local_host()),
        EnvOp::Assign(key_local_ip(), local_ip),
        EnvOp::Assign(key_local_port(), dec(local_port as nat)),
    ]
}

/// The environment changes for a connection from `remote_ip`:`remote_port`
/// accepted on `local_ip`:`local_port`, the addresses given as text.
pub fn environment_plan(remote_ip: &Vec<u8>, remote_port: u16, local_ip: &Vec<u8>, local_port: u16) -> (r: Vec<EnvChange>)
    ensures
        r@.map_values(|c: EnvChange| c@) == plan(remote_ip@, remote_port, local_ip@, local_port),
{
    let mut r: Vec<EnvChange> = Vec::new();
    // TCPREMOTEHOST
    r.push(EnvChange::Remove(vec![84u8, 67u8, 80u8, 82u8, 69u8, 77u8, 79u8, 84u8, 69u8, 72u8, 79u8, 83u8, 84u8]));
    // TCPREMOTEINFO
    r.push(EnvChange::Remove(vec![84u8, 67u8, 80u8, 82u8, 69u8, 77u8, 79u8, 84u8, 69u8, 73u8, 78u8, 70u8, 79u8]));
    // PROTO
    r.push(EnvChange::Assign(vec![80u8, 82u8, 79u8, 84u8, 79u8], vec![84u8, 67u8, 80u8]));
    // TCPREMOTEIP
    r.push(EnvChange::Assign(vec![84u8, 67u8, 80u8, 82u8, 69u8, 77u8, 79u8, 84u8, 69u8, 73u8, 80u8], remote_ip.clone()));
    // TCPREMOTEPORT
    r.push(EnvChange::Assign(vec![84u8, 67u8, 80u8, 82u8, 69u8, 77u8, 79u8, 84u8, 69u8, 80u8, 79u8, 82u8, 84u8], render_decimal(remote_port)));
    // TCPLOCALHOST
    r.push(EnvChange::Remove(vec![84u8, 67u8, 80u8, 76u8, 79u8, 67u8, 65u8, 76u8, 72u8, 79u8, 83u8, 84u8]));
    // TCPLOCALIP
    r.push(EnvChange::Assign(vec![84u8, 67u8, 80u8, 76u8, 79u8, 67u8, 65u8, 76u8, 73u8, 80u8], local_ip.clone()));
    // TCPLOCALPORT
    r.push(EnvChange::Assign(vec![84u8, 67u8, 80u8, 76u8, 79u8, 67u8, 65u8, 76u8, 80u8, 79u8, 82u8, 84u8], render_decimal(local_port)));
    assert(r@.map_values(|c: EnvChange| c@) =~= plan(remote_ip@, remote_port, local_ip@, local_port));
    r
}

/// Whatever the environment before, after the plan it maps `PROTO` to `TCP`,
/// the remote and local address keys to the given text and the ports to their
/// decimal text, holds none of the legacy host and info keys, and leaves every
/// other variable as it was.
pub proof fn lemma_plan_populates(env: Env, remote_ip: Seq<u8>, remote_port: u16, local_ip: Seq<u8>, local_port: u16)
    ensures
        ({
            let e = apply(env, plan(remote_ip, remote_port, local_ip, local_port));
            &&& e.contains_key(key_proto()) && e[key_proto()] == value_tcp()
            &&& e.contains_key(key_remote_ip()) && e[key_remote_ip()] == remote_ip
            &&& e.contains_key(key_remote_port()) && e[key_remote_port()] == dec(remote_port as nat)
            &&& e.contains_key(key_local_ip()) && e[key_local_ip()] == local_ip
            &&& e.contains_key(key_local_port()) && e[key_local_port()] == dec(local_port as nat)
            &&& !e.contains_key(key_remote_host())
            &&& !e.contains_key(key_remote_info())
            &&& !e.contains_key(key_local_host())
            &&& forall|k: Seq<u8>|
                k != key_proto() && k != key_remote_ip() && k != key_remote_port() && k
                    != key_local_ip() && k != key_local_port() && k != key_remote_host() && k
                    != key_remote_info() && k != key_local_host() ==> (#[trigger] e.contains_key(k)
                    == env.contains_key(k) && (env.contains_key(k) ==> e[k] == env[k]))
        }),
{
    let ops = plan(remote_ip, remote_port, local_ip, local_port);
    assert(ops.subrange(0, 0) =~= Seq::<EnvOp>::empty());
    assert(ops.subrange(0, 1).drop_last() =~= ops.subrange(0, 0));
    assert(ops.subrange(0, 2).drop_last() =~= ops.subrange(0, 1));
    assert(ops.subrange(0, 3).drop_last() =~= ops.subrange(0, 2));
    assert(ops.subrange(0, 4).drop_last() =~= ops.subrange(0, 3));
    assert(ops.subrange(0, 5).drop_last() =~= ops.subrange(0, 4));
    assert(ops.subrange(0, 6).drop_last() =~= ops.subrange(0, 5));
    assert(ops.subrange(0, 7).drop_last() =~= ops.subrange(0, 6));
    assert(ops.drop_last() =~= ops.subrange(0, 7));
    let e0 = env;
    let e1 = e0.remove(key_remote_host());
    let e2 = e1.remove(key_remote_info());
    let e3 = e2.insert(key_proto(), value_tcp());
    let e4 = e3.insert(key_remote_ip(), remote_ip);
    let e5 = e4.insert(key_remote_port(), dec(remote_port as nat));
    let e6 = e5.remove(key_local_host());
    let e7 = e6.insert(key_local_ip(), local_ip);
    let e8 = e7.insert(key_local_port(), dec(local_port as nat));
    assert(apply(env, ops.subrange(0, 0)) == env);
    assert forall|j: int| 0 <= j < 8 implies #[trigger] ops.subrange(0, j + 1).last() == ops[j] by {}
    assert(ops.subrange(0, 8) =~= ops);
    assert(apply(env, ops.subrange(0, 1)) == e1);
    assert(apply(env, ops.subrange(0, 2)) == e2);
    assert(apply(env, ops.subrange(0, 3)) == e3);
    assert(apply(env, ops.subrange(0, 4)) == e4);
    assert(apply(env, ops.subrange(0, 5)) == e5);
    assert(apply(env, ops.subrange(0, 6)) == e6);
    assert(apply(env, ops.subrange(0, 7)) == e7);
    assert(apply(env, ops) == e8);
    assert(key_proto() != key_remote_ip() && key_proto() != key_remote_port() && key_proto() != key_local_ip()
        && key_proto() != key_local_port() && key_proto() != key_local_host()) by {
        assert(key_proto().len() != key_remote_ip().len());
        assert(key_proto().len() != key_remote_port().len());
        assert(key_proto().len() != key_local_ip().len());
        assert(key_proto().len() != key_local_port().len());
        assert(key_proto().len() != key_local_host().len());
    }
    assert(key_remote_ip() != key_remote_port() && key_remote_ip() != key_local_ip() && key_remote_ip() != key_local_port()
        && key_remote_ip() != key_local_host()) by {
        assert(key_remote_ip().len() != key_remote_port().len());
        assert(key_remote_ip().len() != key_local_ip().len());
        assert(key_remote_ip().len() != key_local_port().len());
        assert(key_remote_ip().len() != key_local_host().len());
    }
    assert(key_remote_port() != key_local_ip() && key_remote_port() != key_local_port()
        && key_remote_port() != key_local_host()) by {
        assert(key_remote_port().len() != key_local_ip().len());
        assert(key_remote_port()[3] != key_local_port()[3]);
        assert(key_remote_port()[3] != key_local_host()[3]);
    }
    assert(key_local_ip() != key_local_port() && key_local_ip() != key_local_host()) by {
        assert(key_local_ip().len() != key_local_port().len());
        assert(key_local_ip().len() != key_local_host().len());
    }
    assert(key_local_port() != key_local_host()) by {
        assert(key_local_port()[8] != key_local_host()[8]);
    }
    assert(key_remote_host() != key_proto() && key_remote_host() != key_remote_ip()
        && key_remote_host() != key_remote_port() && key_remote_host() != key_local_ip()
        && key_remote_host() != key_local_port()) by {
        assert(key_remote_host().len() != key_proto().len());
        assert(key_remote_host().len() != key_remote_ip().len());
        assert(key_remote_host()[9] != key_remote_port()[9]);
        assert(key_remote_host().len() != key_local_ip().len());
        assert(key_remote_host()[3] != key_local_port()[3]);
    }
    assert(key_remote_info() != key_proto() && key_remote_info() != key_remote_ip()
        && key_remote_info() != key_remote_port() && key_remote_info() != key_local_ip()
        && key_remote_info() != key_local_port()) by {
        assert(key_remote_info().len() != key_proto().len());
        assert(key_remote_info().len() != key_remote_ip().len());
        assert(key_remote_info()[9] != key_remote_port()[9]);
        assert(key_remote_info().len() != key_local_ip().len());
        assert(key_remote_info()[3] != key_local_port()[3]);
    }
}

} // verus!
