//! The schema self-description core: a registry of every registered service's
//! full name and method names, built once at startup and queried by name.
//! Encoding descriptors for the wire is the transport's job; what a query
//! answers — which services exist and which methods each lists — is fixed
//! here.

use vstd::prelude::*;
use vstd::string::StringExecFns;
use crate::text::str_eq;

verus! {

/// One registered service: its full name and its method names, in order.
#[derive(Debug)]
pub struct ServiceDescriptor {
    pub name: String,
    pub methods: Vec<String>,
}

/// The set of services a reflection query can resolve. Read-only after
/// construction; names are unique, so a lookup's answer is determined.
#[derive(Debug)]
pub struct ServiceRegistry {
    pub services: Vec<ServiceDescriptor>,
}

impl ServiceRegistry {
    /// Well-formedness: no two registered services share a name.
    pub open spec fn wf(&self) -> bool {
        forall|i: int, j: int|
            0 <= i < j < self.services@.len() ==> self.services@[i].name@ != self.services@[j].name@
    }

    /// The registry describing this server: the calculator service with its
    /// four methods, the admin service with its one, and the reflection
    /// service's own description.
    pub fn standard() -> (r: ServiceRegistry)
        ensures
            r.wf(),
            r.services@.len() == 3,
            r.services@[0].name@ == "calculator.Calculator"@,
            r.services@[0].methods@.len() == 4,
            r.services@[0].methods@[0]@ == "Add"@,
            r.services@[0].methods@[1]@ == "Subtract"@,
            r.services@[0].methods@[2]@ == "Multiply"@,
            r.services@[0].methods@[3]@ == "Divide"@,
            r.services@[1].name@ == "calculator.Admin"@,
            r.services@[1].methods@.len() == 1,
            r.services@[1].methods@[0]@ == "GetRequestCount"@,
            r.services@[2].name@ == "grpc.reflection.v1.ServerReflection"@,
            r.services@[2].methods@.len() == 1,
            r.services@[2].methods@[0]@ == "ServerReflectionInfo"@,
    {
        let mut calculator_methods: Vec<String> = Vec::new();
        calculator_methods.push(String::from_str("Add"));
        calculator_methods.push(String::from_str("Subtract"));
        calculator_methods.push(String::from_str("Multiply"));
        calculator_methods.push(String::from_str("Divide"));
        let mut admin_methods: Vec<String> = Vec::new();
        admin_methods.push(String::from_str("GetRequestCount"));
        let mut reflection_methods: Vec<String> = Vec::new();
        reflection_methods.push(String::from_str("ServerReflectionInfo"));
        let mut services: Vec<ServiceDescriptor> = Vec::new();
        services.push(
            ServiceDescriptor {
                name: String::from_str("calculator.Calculator"),
                methods: calculator_methods,
            },
        );
        services.push(
            ServiceDescriptor { name: String::from_str("calculator.Admin"), methods: admin_methods },
        );
        services.push(
            ServiceDescriptor {
                name: String::from_str("grpc.reflection.v1.ServerReflection"),
                methods: reflection_methods,
            },
        );
        proof {
            reveal_strlit("calculator.Calculator");
            reveal_strlit("calculator.Admin");
            reveal_strlit("grpc.reflection.v1.ServerReflection");
            assert(services@[0].name@.len() == 21);
            assert(services@[1].name@.len() == 16);
            assert(services@[2].name@.len() == 35);
            assert(services@[0].name@ != services@[1].name@);
            assert(services@[0].name@ != services@[2].name@);
            assert(services@[1].name@ != services@[2].name@);
        }
        ServiceRegistry { services }
    }

    /// Answers a reflection query: the descriptor of the named service, or
    /// nothing when no registered service bears that name.
    pub fn find_service<'a>(&'a self, name: &str) -> (r: Option<&'a ServiceDescriptor>)
        ensures
            match r {
                Some(d) => {
                    &&& d.name@ == name@
                    &&& exists|i: int|
                        0 <= i < self.services@.len() && self.services@[i] == *d
                },
                None => forall|i: int|
                    0 <= i < self.services@.len() ==> self.services@[i].name@ != name@,
            },
    {
        let mut i: usize = 0;
        while i < self.services.len()
            invariant
                i <= self.services@.len(),
                forall|j: int| 0 <= j < i ==> self.services@[j].name@ != name@,
            decreases self.services@.len() - i,
        {
            let candidate = &self.services[i];
            if str_eq(candidate.name.as_str(), name) {
                return Some(candidate);
            }
            i = i + 1;
        }
        None
    }
}

} // verus!
