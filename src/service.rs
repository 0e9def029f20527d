use vstd::prelude::*;

use serde_json::Value;

use crate::backend::Backend;
use crate::error::{CallError, ErrorKind};
use crate::registry::{
    args_for, arguments_for, calendar_methods, is_calendar_registry, operation_for, operation_of,
    texts,
};
use crate::schema::MethodDescriptor;
use crate::text::{joined, same_text};
use crate::validate::{validate, validated};
use crate::value::{CallParams, Entry};

verus! {

/// The prefix that fully qualified method names of this service carry.
pub open spec fn qualified(method: Seq<char>) -> Seq<char> {
    "calendar."@ + method
}

/// `method` names the registered method `name`, bare or fully qualified.
pub open spec fn resolves(name: Seq<char>, method: Seq<char>) -> bool {
    method == name || qualified(method) == name
}

/// `i` is the first method of `m` that `method` names.
pub open spec fn method_at(m: Seq<MethodDescriptor>, method: Seq<char>, i: int) -> bool {
    &&& 0 <= i < m.len()
    &&& resolves(m[i].name@, method)
    &&& forall|j: int| 0 <= j < i ==> !resolves(#[trigger] m[j].name@, method)
}

pub open spec fn registered(m: Seq<MethodDescriptor>, method: Seq<char>) -> bool {
    exists|i: int| 0 <= i < m.len() && resolves(m[i].name@, method)
}

pub open spec fn unknown_method_message(method: Seq<char>) -> Seq<char> {
    "Unknown method: "@ + method
}

/// What a call of `method` with `input` comes to before the backend is
/// reached: the operation and arguments to hand it, or the failure.
pub open spec fn planned(m: Seq<MethodDescriptor>, method: Seq<char>, input: Seq<Entry>) -> Result<
    (Seq<char>, Seq<Seq<char>>),
    (ErrorKind, Seq<char>),
> {
    if exists|i: int| method_at(m, method, i) {
        let i = choose|i: int| method_at(m, method, i);
        match validated(m[i].params@, input) {
            Err(msg) => Err((ErrorKind::InvalidParams, msg)),
            Ok(n) => Ok((operation_of(i), args_for(i, n))),
        }
    } else {
        Err((ErrorKind::NotFound, unknown_method_message(method)))
    }
}

/// `r` carries the failure `f`.
pub open spec fn fails_with(r: Result<Invocation, CallError>, f: (ErrorKind, Seq<char>)) -> bool {
    r matches Err(e) && e.kind == f.0 && e.message@ == f.1
}

/// A backend call: the operation and its positional arguments.
#[derive(Debug)]
pub struct Invocation {
    pub operation: String,
    pub args: Vec<String>,
}

impl Invocation {
    /// The operation followed by its arguments, as a helper process receives them.
    pub fn command_line(&self) -> (r: Vec<String>)
        ensures
            texts(r@) == seq![self.operation@] + texts(self.args@),
    {
        let mut r: Vec<String> = Vec::new();
        r.push(self.operation.clone());
        let mut i: usize = 0;
        while i < self.args.len()
            invariant
                i <= self.args.len(),
                texts(r@) == seq![self.operation@] + texts(self.args@).subrange(0, i as int),
            decreases self.args.len() - i,
        {
            let ghost before = r@;
            r.push(self.args[i].clone());
            assert(texts(r@) =~= texts(before).push(self.args@[i as int]@));
            assert(texts(self.args@).subrange(0, i + 1) =~= texts(self.args@).subrange(
                0,
                i as int,
            ).push(self.args@[i as int]@));
            assert(texts(r@) =~= seq![self.operation@] + texts(self.args@).subrange(0, i + 1));
            i = i + 1;
        }
        assert(texts(self.args@).subrange(0, i as int) =~= texts(self.args@));
        r
    }
}

/// Health of one subsystem.
#[derive(Debug)]
pub struct HealthStatus {
    pub ok: bool,
    pub latency_ms: Option<u64>,
    pub message: Option<String>,
}

/// Where the service is in its life.
#[derive(Clone, Copy, Debug, PartialEq, Eq, Structural)]
pub enum ServiceState {
    Uninitialized,
    Serving,
    Degraded,
}

impl ServiceState {
    /// The state after startup, which `started` says succeeded or not.
    pub fn after_start(self, started: bool) -> (r: ServiceState)
        ensures
            self == ServiceState::Uninitialized ==> r == (if started {
                ServiceState::Serving
            } else {
                ServiceState::Uninitialized
            }),
            self != ServiceState::Uninitialized ==> r == self,
    {
        match self {
            ServiceState::Uninitialized => if started {
                ServiceState::Serving
            } else {
                ServiceState::Uninitialized
            },
            other => other,
        }
    }

    /// The state after a health probe of the backend; a started service keeps
    /// serving either way.
    pub fn after_probe(self, healthy: bool) -> (r: ServiceState)
        ensures
            self == ServiceState::Uninitialized ==> r == self,
            self != ServiceState::Uninitialized ==> r == (if healthy {
                ServiceState::Serving
            } else {
                ServiceState::Degraded
            }),
    {
        match self {
            ServiceState::Uninitialized => ServiceState::Uninitialized,
            _ => if healthy {
                ServiceState::Serving
            } else {
                ServiceState::Degraded
            },
        }
    }
}

/// The calendar service: its method table and the helper it calls.
#[derive(Debug)]
pub struct CalendarService {
    cli_path: String,
    methods: Vec<MethodDescriptor>,
}

impl CalendarService {
    pub closed spec fn registry(&self) -> Seq<MethodDescriptor> {
        self.methods@
    }

    pub closed spec fn helper_path(&self) -> Seq<char> {
        self.cli_path@
    }

    pub open spec fn wf(&self) -> bool {
        is_calendar_registry(self.registry())
    }

    /// A service calling the helper at `cli_path`, which must exist.
    pub fn new(cli_path: String, cli_exists: bool) -> (r: Result<CalendarService, CallError>)
        ensures
            cli_exists ==> (r matches Ok(s) && s.wf() && s.helper_path() == cli_path@),
            !cli_exists ==> (r matches Err(e) && e.kind == ErrorKind::Unavailable && e.message@
                == "Calendar CLI not found at: "@ + cli_path@
                + "\nEnsure calendar-cli.py is installed."@),
    {
        if !cli_exists {
            let head = joined("Calendar CLI not found at: ", cli_path.as_str());
            let msg = joined(head.as_str(), "\nEnsure calendar-cli.py is installed.");
            return Err(CallError::new(ErrorKind::Unavailable, msg));
        }
        Ok(CalendarService { cli_path, methods: calendar_methods() })
    }

    pub fn name(&self) -> (r: &'static str)
        ensures
            r@ == "calendar"@,
    {
        "calendar"
    }

    pub fn version(&self) -> (r: &'static str)
        ensures
            r@ == "1.0.0"@,
    {
        "1.0.0"
    }

    pub fn cli_path(&self) -> (r: &String)
        ensures
            r@ == self.helper_path(),
    {
        &self.cli_path
    }

    /// The methods this service offers.
    pub fn method_list(&self) -> (r: Vec<MethodDescriptor>)
        ensures
            is_calendar_registry(r@),
    {
        calendar_methods()
    }

    fn find_method(&self, method: &str) -> (r: Option<usize>)
        ensures
            match r {
                Some(i) => method_at(self.registry(), method@, i as int),
                None => !registered(self.registry(), method@),
            },
    {
        let full = joined("calendar.", method);
        let mut i: usize = 0;
        while i < self.methods.len()
            invariant
                i <= self.methods.len(),
                full@ == qualified(method@),
                forall|j: int| 0 <= j < i ==> !resolves(#[trigger] self.methods@[j].name@, method@),
            decreases self.methods.len() - i,
        {
            let name = self.methods[i].name.as_str();
            if same_text(name, method) || same_text(name, full.as_str()) {
                return Some(i);
            }
            i = i + 1;
        }
        None
    }

    /// Looks `method` up and validates `params`: the backend call that the
    /// call comes to, or its failure.
    pub fn plan(&self, method: &str, params: &CallParams) -> (r: Result<Invocation, CallError>)
        requires
            self.wf(),
            params.wf(),
        ensures
            match planned(self.registry(), method@, params@) {
                Ok((op, args)) => r matches Ok(inv) && inv.operation@ == op && texts(inv.args@)
                    == args,
                Err(f) => fails_with(r, f),
            },
    {
        match self.find_method(method) {
            None => {
                let msg = joined("Unknown method: ", method);
                Err(CallError::new(ErrorKind::NotFound, msg))
            },
            Some(i) => {
                proof {
                    let c = choose|c: int| method_at(self.registry(), method@, c);
                    if c < i {
                        assert(!resolves(self.registry()[c].name@, method@));
                    } else if i < c {
                        assert(!resolves(self.registry()[i as int].name@, method@));
                    }
                    assert(crate::registry::registry_wf(self.registry()));
                    assert(crate::schema::schema_wf(self.registry()[i as int].params@));
                }
                let n = validate(&self.methods[i].params, params)?;
                Ok(Invocation { operation: operation_for(i), args: arguments_for(i, &n) })
            },
        }
    }

    /// Decides startup from the probe of the interpreter that runs the helper:
    /// `None` where it could not be started, else whether it exited with success.
    pub fn on_start(&self, interpreter: Option<bool>) -> (r: Result<(), CallError>)
        ensures
            interpreter == Some(true) ==> r is Ok,
            interpreter is None ==> (r matches Err(e) && e.kind == ErrorKind::Unavailable
                && e.message@ == "Python3 not found"@),
            interpreter == Some(false) ==> (r matches Err(e) && e.kind == ErrorKind::Unavailable
                && e.message@ == "Python3 not available"@),
    {
        match interpreter {
            None => Err(CallError::new(ErrorKind::Unavailable, String::from_str("Python3 not found"))),
            Some(false) => Err(
                CallError::new(ErrorKind::Unavailable, String::from_str("Python3 not available")),
            ),
            Some(true) => Ok(()),
        }
    }

    /// The health of the helper, from whether its file exists now.
    pub fn health_check(&self, cli_exists: bool) -> (r: Vec<(String, HealthStatus)>)
        ensures
            r@.len() == 1,
            r@[0].0@ == "calendar_cli"@,
            r@[0].1.ok == cli_exists,
            r@[0].1.latency_ms is None,
            r@[0].1.message matches Some(m) && m@.len() > 0,
            cli_exists ==> (r@[0].1.message matches Some(m) && m@ == "CLI at "@ + self.helper_path()),
            !cli_exists ==> (r@[0].1.message matches Some(m) && m@ == "calendar-cli.py not found"@),
    {
        let message = if cli_exists {
            joined("CLI at ", self.cli_path.as_str())
        } else {
            String::from_str("calendar-cli.py not found")
        };
        proof {
            reveal_strlit("CLI at ");
            reveal_strlit("calendar-cli.py not found");
        }
        let status = HealthStatus { ok: cli_exists, latency_ms: None, message: Some(message) };
        let mut r: Vec<(String, HealthStatus)> = Vec::new();
        r.push((String::from_str("calendar_cli"), status));
        r
    }

    /// Handles a call: looks the method up, validates the parameters and only
    /// then hands the call to `backend`, whose result comes back unchanged.
    pub fn dispatch<B: Backend>(&self, backend: &B, method: &str, params: &CallParams) -> (r: Result<
        Value,
        CallError,
    >)
        requires
            self.wf(),
            params.wf(),
        ensures
            planned(self.registry(), method@, params@) matches Err(f) ==> (r matches Err(e)
                && e.kind == f.0 && e.message@ == f.1),
            planned(self.registry(), method@, params@) matches Ok((op, args)) ==> backend.gives(
                op,
                args,
                r,
            ),
    {
        match self.plan(method, params) {
            Err(e) => Err(e),
            Ok(inv) => backend.execute(inv.operation.as_str(), &inv.args),
        }
    }
}

} // verus!
