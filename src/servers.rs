//! Capability servers of the test schema: each method takes its parameters as
//! plain values and returns its results, or the error the call resolves to.
use vstd::prelude::*;
use crate::error::{Error, ErrorKind};
use crate::pipeline::{Call, Dispatch, PendingResult, lemma_pipelined_order};

verus! {

/// The parameters of `foo`.
#[derive(PartialEq, Eq, Structural, Clone, Copy, Debug)]
pub struct FooParams {
    pub i: u64,
    pub j: bool,
}

/// Which server a capability handed out by a result designates.
#[derive(PartialEq, Eq, Structural, Clone, Copy, Debug)]
pub enum ServerKind {
    TestInterface,
    TestExtends,
    TestPipeline,
    TestCallOrder,
}

/// The results of `get_cap`: a text field and the capability placed in the
/// result's box.
pub struct GetCapResults {
    pub s: String,
    pub out_box_cap: ServerKind,
}

/// The entry point that hands out one fresh server per method.
pub struct Bootstrap;

/// A server that counts the calls made on it.
pub struct TestInterface {
    pub call_count: u64,
}

/// A server of the interface that extends `TestInterface`.
pub struct TestExtends;

/// A server whose method calls back into a capability it is given.
pub struct TestPipeline;

/// A server that numbers the calls made on it, in the order they arrive.
pub struct TestCallOrder {
    pub count: u32,
}

impl Bootstrap {
    pub fn test_interface(&self) -> (r: TestInterface)
        ensures
            r.call_count == 0,
    {
        TestInterface::new()
    }

    pub fn test_extends(&self) -> (r: TestExtends) {
        TestExtends
    }

    /// Declared by the schema, never given a working implementation.
    pub fn test_extends2(&self) -> (r: Result<(), Error>)
        ensures
            r is Err,
            r->Err_0.kind == ErrorKind::Unimplemented,
            r->Err_0.description@ == "test_extends2 is not implemented"@,
    {
        Err(Error::unimplemented("test_extends2 is not implemented".to_string()))
    }

    pub fn test_pipeline(&self) -> (r: TestPipeline) {
        TestPipeline
    }

    pub fn test_call_order(&self) -> (r: TestCallOrder)
        ensures
            r.count == 0,
    {
        TestCallOrder::new()
    }
}

impl TestInterface {
    pub fn new() -> (r: TestInterface)
        ensures
            r.call_count == 0,
    {
        TestInterface { call_count: 0 }
    }

    /// How many calls have been made on this server.
    pub fn get_call_count(&self) -> (r: u64)
        ensures
            r == self.call_count,
    {
        self.call_count
    }

    fn increment_call_count(&mut self)
        requires
            old(self).call_count < u64::MAX,
        ensures
            final(self).call_count == old(self).call_count + 1,
    {
        self.call_count = self.call_count + 1;
    }

    /// Accepts only `i == 123` and `j`, and answers `"foo"`.
    pub fn foo(&mut self, params: FooParams) -> (r: Result<String, Error>)
        requires
            old(self).call_count < u64::MAX,
        ensures
            final(self).call_count == old(self).call_count + 1,
            r is Ok <==> (params.i == 123 && params.j),
            r is Err ==> r->Err_0.kind == ErrorKind::Failed,
            params.i != 123 ==> r is Err && r->Err_0.kind == ErrorKind::Failed && r->Err_0.description@
                == "expected i to equal 123"@,
            params.i == 123 && !params.j ==> r is Err && r->Err_0.kind == ErrorKind::Failed
                && r->Err_0.description@ == "expected j to be true"@,
            params.i == 123 && params.j ==> r is Ok && r->Ok_0@ == "foo"@,
    {
        self.increment_call_count();
        if params.i != 123 {
            return Err(Error::failed("expected i to equal 123".to_string()));
        }
        if !params.j {
            return Err(Error::failed("expected j to be true".to_string()));
        }
        Ok("foo".to_string())
    }

    pub fn bar(&mut self) -> (r: Result<(), Error>)
        requires
            old(self).call_count < u64::MAX,
        ensures
            final(self).call_count == old(self).call_count + 1,
            r is Err,
            r->Err_0.kind == ErrorKind::Unimplemented,
            r->Err_0.description@ == "bar is not implemented"@,
    {
        self.increment_call_count();
        Err(Error::unimplemented("bar is not implemented".to_string()))
    }

    pub fn baz(&mut self) -> (r: Result<(), Error>)
        requires
            old(self).call_count < u64::MAX,
        ensures
            final(self).call_count == old(self).call_count + 1,
            r is Ok,
    {
        self.increment_call_count();
        Ok(())
    }
}

impl TestExtends {
    /// Accepts only `i == 321` and `!j`, and answers `"bar"`.
    pub fn foo(&self, params: FooParams) -> (r: Result<String, Error>)
        ensures
            r is Ok <==> (params.i == 321 && !params.j),
            r is Err ==> r->Err_0.kind == ErrorKind::Failed,
            params.i != 321 ==> r is Err && r->Err_0.kind == ErrorKind::Failed && r->Err_0.description@
                == "expected i to equal 321"@,
            params.i == 321 && params.j ==> r is Err && r->Err_0.kind == ErrorKind::Failed
                && r->Err_0.description@ == "expected j to be false"@,
            params.i == 321 && !params.j ==> r is Ok && r->Ok_0@ == "bar"@,
    {
        if params.i != 321 {
            return Err(Error::failed("expected i to equal 321".to_string()));
        }
        if params.j {
            return Err(Error::failed("expected j to be false".to_string()));
        }
        Ok("bar".to_string())
    }

    pub fn bar(&self) -> (r: Result<(), Error>)
        ensures
            r is Err,
            r->Err_0.kind == ErrorKind::Unimplemented,
            r->Err_0.description@ == "bar is not implemented"@,
    {
        Err(Error::unimplemented("bar is not implemented".to_string()))
    }

    pub fn baz(&self) -> (r: Result<(), Error>)
        ensures
            r is Err,
            r->Err_0.kind == ErrorKind::Unimplemented,
            r->Err_0.description@ == "baz is not implemented"@,
    {
        Err(Error::unimplemented("baz is not implemented".to_string()))
    }

    pub fn qux(&self) -> (r: Result<(), Error>)
        ensures
            r is Err,
            r->Err_0.kind == ErrorKind::Unimplemented,
            r->Err_0.description@ == "qux is not implemented"@,
    {
        Err(Error::unimplemented("qux is not implemented".to_string()))
    }

    pub fn corge(&self) -> (r: Result<(), Error>)
        ensures
            r is Err,
            r->Err_0.kind == ErrorKind::Unimplemented,
            r->Err_0.description@ == "corge is not implemented"@,
    {
        Err(Error::unimplemented("corge is not implemented".to_string()))
    }

    pub fn grault(&self) -> (r: Result<(), Error>)
        ensures
            r is Ok,
    {
        Ok(())
    }
}

impl TestPipeline {
    /// The first half of `get_cap`: checks `n` and gives the parameters of the
    /// `foo` call to make on the capability that came with it.
    pub fn get_cap(&self, n: u32) -> (r: Result<FooParams, Error>)
        ensures
            n != 234 ==> r is Err && r->Err_0.kind == ErrorKind::Failed && r->Err_0.description@
                == "expected n to equal 234"@,
            n == 234 ==> r == Ok::<FooParams, Error>(FooParams { i: 123, j: true }),
    {
        if n != 234 {
            return Err(Error::failed("expected n to equal 234".to_string()));
        }
        Ok(FooParams { i: 123, j: true })
    }

    /// The second half of `get_cap`, once the `foo` call has completed: its
    /// failure is passed on; its answer must be `"foo"`.
    pub fn get_cap_complete(&self, response: Result<String, Error>) -> (r: Result<GetCapResults, Error>)
        ensures
            match response {
                Err(e) => r is Err && r->Err_0 == e,
                Ok(x) => if x@ == "foo"@ {
                    r is Ok && r->Ok_0.s@ == "bar"@ && r->Ok_0.out_box_cap == ServerKind::TestExtends
                } else {
                    r is Err && r->Err_0.kind == ErrorKind::Failed && r->Err_0.description@
                        == "expected x to equal 'foo'"@
                },
            },
    {
        match response {
            Err(e) => Err(e),
            Ok(x) => {
                let expected = "foo".to_string();
                if x == expected {
                    Ok(GetCapResults { s: "bar".to_string(), out_box_cap: ServerKind::TestExtends })
                } else {
                    Err(Error::failed("expected x to equal 'foo'".to_string()))
                }
            },
        }
    }
}

impl TestCallOrder {
    pub fn new() -> (r: TestCallOrder)
        ensures
            r.count == 0,
    {
        TestCallOrder { count: 0 }
    }

    /// The number of calls that arrived before this one.
    pub fn get_call_sequence(&mut self) -> (r: u32)
        requires
            old(self).count < u32::MAX,
        ensures
            r == old(self).count,
            final(self).count == old(self).count + 1,
    {
        let n = self.count;
        self.count = self.count + 1;
        n
    }
}

/// Delivers `calls` to a call-order server in the order given, and gives the
/// sequence number that the server returned for each.
pub fn deliver_calls(server: &mut TestCallOrder, calls: &Vec<Call>) -> (r: Vec<u32>)
    requires
        old(server).count + calls@.len() <= u32::MAX,
    ensures
        r@.len() == calls@.len(),
        forall|k: int| 0 <= k < r@.len() ==> r@[k] == old(server).count + k,
        final(server).count == old(server).count + calls@.len(),
{
    let mut out: Vec<u32> = Vec::new();
    let mut i: usize = 0;
    while i < calls.len()
        invariant
            i <= calls@.len(),
            old(server).count + calls@.len() <= u32::MAX,
            server.count == old(server).count + i,
            out@.len() == i,
            forall|k: int| 0 <= k < i ==> out@[k] == old(server).count + k,
        decreases calls@.len() - i,
    {
        let n = server.get_call_sequence();
        out.push(n);
        i = i + 1;
    }
    out
}

/// Sequence numbers handed out by a call-order server to calls delivered one
/// after another strictly increase: an earlier call is observed first.
pub proof fn lemma_call_sequence_increasing(numbers: Seq<u32>, start: u32)
    requires
        forall|k: int| 0 <= k < numbers.len() ==> numbers[k] == start + k,
    ensures
        forall|a: int, b: int| 0 <= a < b < numbers.len() ==> numbers[a] < numbers[b],
{
}

/// Calls `first` then `second` made on a call-order capability while the
/// result that holds it is pending, then delivered to its server in the order
/// the resolution hands them out, get strictly increasing sequence numbers:
/// the server observes `first` before `second`, and no other call of this
/// caller comes between them.
pub proof fn lemma_pipelined_calls_observed_in_order(
    p0: PendingResult,
    first: Call,
    r1: Dispatch,
    p1: PendingResult,
    second: Call,
    r2: Dispatch,
    p2: PendingResult,
    target: u64,
    delivered: Seq<Call>,
    p3: PendingResult,
    start: u32,
    numbers: Seq<u32>,
)
    requires
        p0.resolution is Pending,
        p0.call_step(first, r1, p1),
        p1.call_step(second, r2, p2),
        p2.resolve_step(target, delivered, p3),
        numbers.len() == delivered.len(),
        forall|k: int| 0 <= k < numbers.len() ==> numbers[k] == start + k,
    ensures
        delivered[p0.queue@.len() as int] == first,
        delivered[p0.queue@.len() as int + 1] == second,
        numbers[p0.queue@.len() as int] < numbers[p0.queue@.len() as int + 1],
        numbers[p0.queue@.len() as int + 1] == numbers[p0.queue@.len() as int] + 1,
{
    lemma_pipelined_order(p0, first, r1, p1, second, r2, p2, target, delivered, p3);
}

} // verus!
