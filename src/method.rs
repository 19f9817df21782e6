use vstd::prelude::*;

verus! {

/// An HTTP request method, as the router sees it.
#[derive(Clone, Copy, Debug, PartialEq, Eq, Structural)]
pub enum HttpMethod {
    Get,
    Post,
    Put,
    Delete,
    Head,
    Options,
    Patch,
    Trace,
    Connect,
    /// Any extension method (not one of the standard verbs).
    Extension,
}

/// Whether a route can be registered for this method.
pub open spec fn is_routable(m: HttpMethod) -> bool {
    !(m is Connect) && !(m is Extension)
}

/// The bit that stands for a routable method in a filter.
pub open spec fn method_bit(m: HttpMethod) -> u16 {
    match m {
        HttpMethod::Delete => 0x2,
        HttpMethod::Get => 0x4,
        HttpMethod::Head => 0x8,
        HttpMethod::Options => 0x10,
        HttpMethod::Patch => 0x20,
        HttpMethod::Post => 0x40,
        HttpMethod::Put => 0x80,
        HttpMethod::Trace => 0x100,
        _ => 0,
    }
}

/// A set of methods that a route answers, one bit per routable method.
#[derive(Clone, Copy, Debug, PartialEq, Eq, Structural)]
pub struct MethodFilter {
    pub bits: u16,
}

impl MethodFilter {
    /// Whether the filter lets requests of method `m` through.
    pub open spec fn allows(self, m: HttpMethod) -> bool {
        is_routable(m) && self.bits & method_bit(m) != 0
    }

    /// Whether requests of method `m` pass the filter.
    pub fn contains_method(self, m: HttpMethod) -> (r: bool)
        ensures
            r == self.allows(m),
    {
        self.bits & method_bit_exec(m) != 0 && is_routable_exec(m)
    }
}

/// Executable form of `is_routable`.
pub fn is_routable_exec(m: HttpMethod) -> (r: bool)
    ensures
        r == is_routable(m),
{
    match m {
        HttpMethod::Connect | HttpMethod::Extension => false,
        _ => true,
    }
}

fn method_bit_exec(m: HttpMethod) -> (r: u16)
    ensures
        r == method_bit(m),
{
    match m {
        HttpMethod::Delete => 0x2,
        HttpMethod::Get => 0x4,
        HttpMethod::Head => 0x8,
        HttpMethod::Options => 0x10,
        HttpMethod::Patch => 0x20,
        HttpMethod::Post => 0x40,
        HttpMethod::Put => 0x80,
        HttpMethod::Trace => 0x100,
        _ => 0,
    }
}

/// The filter that a route registered for method `m` carries: exactly `m`.
/// Registering a route for a method without a filter bit is a startup-fatal
/// configuration error, so such methods are not accepted.
pub fn method_to_filter(m: HttpMethod) -> (r: MethodFilter)
    requires
        is_routable(m),
    ensures
        r.bits == method_bit(m),
        forall|n: HttpMethod| r.allows(n) <==> n == m,
{
    let r = MethodFilter { bits: method_bit_exec(m) };
    assert forall|n: HttpMethod| r.allows(n) <==> n == m by {
        let a = method_bit(m);
        let b = method_bit(n);
        if is_routable(n) && n != m {
            assert(a != b);
            assert(a & b == 0) by (bit_vector)
                requires
                    a != b,
                    a == 0x2 || a == 0x4 || a == 0x8 || a == 0x10 || a == 0x20 || a == 0x40
                        || a == 0x80 || a == 0x100,
                    b == 0x2 || b == 0x4 || b == 0x8 || b == 0x10 || b == 0x20 || b == 0x40
                        || b == 0x80 || b == 0x100,
            ;
        }
        if n == m {
            assert(a & a != 0) by (bit_vector)
                requires
                    a == 0x2 || a == 0x4 || a == 0x8 || a == 0x10 || a == 0x20 || a == 0x40
                        || a == 0x80 || a == 0x100,
            ;
        }
    }
    r
}

} // verus!
