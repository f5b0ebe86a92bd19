use capnp::error::{Error, ErrorKind};
use capnp::pipeline::{Call, Dispatch, PendingResult, Resolution};
use capnp::servers::{
    deliver_calls, Bootstrap, FooParams, ServerKind, TestCallOrder, TestExtends, TestInterface,
    TestPipeline,
};

#[test]
fn foo_accepts_expected_parameters() {
    let mut s = TestInterface::new();
    let r = s.foo(FooParams { i: 123, j: true });
    assert_eq!(r.ok(), Some("foo".to_string()));
    assert_eq!(s.get_call_count(), 1);
}

#[test]
fn foo_rejects_wrong_i() {
    let mut s = TestInterface::new();
    let e = s.foo(FooParams { i: 124, j: true }).err().unwrap();
    assert_eq!(e.kind, ErrorKind::Failed);
    assert!(e.description.contains("i"));
    assert_eq!(e.description, "expected i to equal 123");
    assert_eq!(s.get_call_count(), 1);
}

#[test]
fn foo_rejects_false_j() {
    let mut s = TestInterface::new();
    let e = s.foo(FooParams { i: 123, j: false }).err().unwrap();
    assert_eq!(e.kind, ErrorKind::Failed);
    assert_eq!(e.description, "expected j to be true");
}

#[test]
fn unimplemented_methods_report_unimplemented() {
    let mut s = TestInterface::new();
    assert_eq!(s.bar().err().unwrap().kind, ErrorKind::Unimplemented);
    assert!(s.baz().is_ok());
    assert_eq!(s.get_call_count(), 2);
    let x = TestExtends;
    assert_eq!(x.bar().err().unwrap().kind, ErrorKind::Unimplemented);
    assert_eq!(x.baz().err().unwrap().kind, ErrorKind::Unimplemented);
    assert_eq!(x.qux().err().unwrap().kind, ErrorKind::Unimplemented);
    assert_eq!(x.corge().err().unwrap().kind, ErrorKind::Unimplemented);
    assert!(x.grault().is_ok());
    assert_eq!(Bootstrap.test_extends2().err().unwrap().kind, ErrorKind::Unimplemented);
}

#[test]
fn extends_foo_checks_its_own_values() {
    let x = Bootstrap.test_extends();
    assert_eq!(x.foo(FooParams { i: 321, j: false }).ok(), Some("bar".to_string()));
    assert_eq!(x.foo(FooParams { i: 123, j: false }).err().unwrap().description, "expected i to equal 321");
    assert_eq!(x.foo(FooParams { i: 321, j: true }).err().unwrap().description, "expected j to be false");
}

#[test]
fn bootstrap_hands_out_fresh_servers() {
    let b = Bootstrap;
    assert_eq!(b.test_interface().get_call_count(), 0);
    assert_eq!(b.test_call_order().count, 0);
    let _p: TestPipeline = b.test_pipeline();
}

#[test]
fn get_cap_checks_n_then_calls_foo() {
    let p = TestPipeline;
    let e = p.get_cap(233).err().unwrap();
    assert_eq!(e.kind, ErrorKind::Failed);
    assert_eq!(e.description, "expected n to equal 234");
    let params = p.get_cap(234).ok().unwrap();
    assert_eq!(params, FooParams { i: 123, j: true });
    let mut target = TestInterface::new();
    let answer = target.foo(params);
    let done = p.get_cap_complete(answer).ok().unwrap();
    assert_eq!(done.s, "bar");
    assert_eq!(done.out_box_cap, ServerKind::TestExtends);
}

#[test]
fn get_cap_passes_on_failure() {
    let p = TestPipeline;
    let e = p.get_cap_complete(Err(Error::failed("boom".to_string()))).err().unwrap();
    assert_eq!(e.kind, ErrorKind::Failed);
    assert_eq!(e.description, "boom");
    let e2 = p.get_cap_complete(Ok("nope".to_string())).err().unwrap();
    assert_eq!(e2.description, "expected x to equal 'foo'");
}

#[test]
fn call_sequence_counts_up() {
    let mut s = TestCallOrder::new();
    assert_eq!(s.get_call_sequence(), 0);
    assert_eq!(s.get_call_sequence(), 1);
    assert_eq!(s.get_call_sequence(), 2);
}

#[test]
fn pipelined_calls_are_delivered_in_order() {
    let mut p = PendingResult::new();
    let a = Call { id: 1, method: 0 };
    let b = Call { id: 2, method: 0 };
    assert!(matches!(p.call(a), Dispatch::Queued));
    assert!(matches!(p.call(b), Dispatch::Queued));
    let queued = p.resolve(77);
    assert_eq!(queued, vec![a, b]);
    let c = Call { id: 3, method: 0 };
    match p.call(c) {
        Dispatch::Deliver { target, call } => {
            assert_eq!(target, 77);
            assert_eq!(call, c);
        }
        _ => panic!("expected delivery"),
    }
    let mut server = TestCallOrder::new();
    let seq = deliver_calls(&mut server, &vec![a, b, c]);
    assert_eq!(seq, vec![0, 1, 2]);
}

#[test]
fn pipelined_calls_fail_with_the_originating_call() {
    let mut p = PendingResult::new();
    let a = Call { id: 1, method: 4 };
    p.call(a);
    let rejected = p.fail(Error { kind: ErrorKind::Disconnected, description: "gone".to_string() });
    assert_eq!(rejected.len(), 1);
    match &rejected[0] {
        Dispatch::Reject { call, error } => {
            assert_eq!(*call, a);
            assert_eq!(error.kind, ErrorKind::Disconnected);
            assert_eq!(error.description, "gone");
        }
        _ => panic!("expected rejection"),
    }
    assert!(matches!(p.resolution, Resolution::Broken(_)));
    match p.call(Call { id: 2, method: 4 }) {
        Dispatch::Reject { error, .. } => assert_eq!(error.kind, ErrorKind::Disconnected),
        _ => panic!("expected rejection"),
    }
}

#[test]
fn unimplemented_methods_name_themselves() {
    let mut s = TestInterface::new();
    assert_eq!(s.bar().err().unwrap().description, "bar is not implemented");
    let x = TestExtends;
    assert_eq!(x.bar().err().unwrap().description, "bar is not implemented");
    assert_eq!(x.baz().err().unwrap().description, "baz is not implemented");
    assert_eq!(x.qux().err().unwrap().description, "qux is not implemented");
    assert_eq!(x.corge().err().unwrap().description, "corge is not implemented");
    assert_eq!(Bootstrap.test_extends2().err().unwrap().description, "test_extends2 is not implemented");
}
