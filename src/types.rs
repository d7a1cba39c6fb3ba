use vstd::prelude::*;

verus! {

/// An interned name token, used for function names and for branch and
/// position labels. Two identifiers are the same name exactly when their
/// tokens are equal.
#[derive(Clone, Copy, Debug, PartialEq, Eq, Hash, Structural)]
pub struct Identifier(pub u64);

impl Identifier {
    pub fn new(token: u64) -> (r: Self)
        ensures
            r.0 == token,
    {
        Identifier(token)
    }
}

/// A storage reference: a flat slot (`Locator`) or a field path below a slot
/// (`Member`).
#[derive(Clone, Debug, Eq, Hash)]
pub enum Register {
    Locator(u64),
    Member(u64, Vec<Identifier>),
}

impl Register {
    /// Register equality on values: same variant, same slot, same path.
    pub open spec fn same(&self, other: &Register) -> bool {
        match (*self, *other) {
            (Register::Locator(a), Register::Locator(b)) => a == b,
            (Register::Member(a, p), Register::Member(b, q)) => a == b && p@ == q@,
            _ => false,
        }
    }

    /// Returns `true` if the register is a flat slot.
    pub fn is_locator(&self) -> (r: bool)
        ensures
            r == (*self is Locator),
    {
        matches!(self, Register::Locator(..))
    }
}

impl PartialEq for Register {
    fn eq(&self, other: &Register) -> (r: bool) {
        match (self, other) {
            (Register::Locator(a), Register::Locator(b)) => *a == *b,
            (Register::Member(a, p), Register::Member(b, q)) => {
                if *a != *b {
                    return false;
                }
                if p.len() != q.len() {
                    assert(p@ != q@);
                    return false;
                }
                let mut i: usize = 0;
                while i < p.len()
                    invariant
                        p@.len() == q@.len(),
                        i <= p@.len(),
                        self.same(other) == (p@ == q@),
                        forall|j: int| 0 <= j < i ==> p@[j] == q@[j],
                    decreases p@.len() - i,
                {
                    if p[i].0 != q[i].0 {
                        assert(p@[i as int] != q@[i as int]);
                        return false;
                    }
                    i = i + 1;
                }
                assert(p@ =~= q@);
                true
            },
            _ => false,
        }
    }
}

impl vstd::std_specs::cmp::PartialEqSpecImpl for Register {
    open spec fn obeys_eq_spec() -> bool {
        true
    }

    open spec fn eq_spec(&self, other: &Register) -> bool {
        self.same(other)
    }
}

/// The type of a primitive value.
#[derive(Clone, Copy, Debug, PartialEq, Eq, Hash, Structural)]
pub enum LiteralType {
    Address,
    Boolean,
    Field,
    Group,
    I8,
    I16,
    I32,
    I64,
    I128,
    U8,
    U16,
    U32,
    U64,
    U128,
    Scalar,
    Signature,
    String,
}

/// A tag describing the shape of a stored or input value.
#[derive(Clone, Copy, Debug, PartialEq, Eq, Hash, Structural)]
pub enum PlaintextType {
    Literal(LiteralType),
    Struct(Identifier),
}

/// A formal input: the register it binds and the type of its value.
#[derive(Clone, Debug, Eq, Hash)]
pub struct Input {
    pub register: Register,
    pub plaintext_type: PlaintextType,
}

impl Input {
    /// Input equality on values: the whole pair is compared.
    pub open spec fn same(&self, other: &Input) -> bool {
        self.register.same(&other.register) && self.plaintext_type == other.plaintext_type
    }

    pub fn new(register: Register, plaintext_type: PlaintextType) -> (r: Self)
        ensures
            r.register == register,
            r.plaintext_type == plaintext_type,
    {
        Input { register, plaintext_type }
    }

    /// Returns the register of the input.
    pub fn register(&self) -> (r: &Register)
        ensures
            *r == self.register,
    {
        &self.register
    }

    /// Returns the type of the input.
    pub fn plaintext_type(&self) -> (r: PlaintextType)
        ensures
            r == self.plaintext_type,
    {
        self.plaintext_type
    }
}

impl PartialEq for Input {
    fn eq(&self, other: &Input) -> (r: bool) {
        self.register == other.register && self.plaintext_type == other.plaintext_type
    }
}

impl vstd::std_specs::cmp::PartialEqSpecImpl for Input {
    open spec fn obeys_eq_spec() -> bool {
        true
    }

    open spec fn eq_spec(&self, other: &Input) -> bool {
        self.same(other)
    }
}

} // verus!
