use vstd::prelude::*;

verus! {

/// The system's OpenGL library, as far as `gl_loader` could open it. Only
/// `GlLibrary::open` makes a value of this type, so holding one shows that
/// opening the library was attempted before any lookup, as `gl_loader` asks.
/// Opening may have failed; lookups are then answered by `gl_loader` all the
/// same.
#[derive(Debug)]
pub struct GlLibrary {
    status: i32,
}

impl GlLibrary {
    /// Tries to open the system's OpenGL library through
    /// `gl_loader::init_gl`, and keeps the status that glad returns. The
    /// status depends on the machine, so nothing is stated of it.
    #[verifier::external_body]
    pub(crate) fn open() -> (lib: GlLibrary) {
        GlLibrary { status: gl_loader::init_gl() }
    }

    /// Looks up the OpenGL function `name` through
    /// `gl_loader::get_proc_address`, which is handed `name` itself; the
    /// outcome records that name and the address that came back (null where
    /// the library has no such function). The address depends on the machine,
    /// so nothing is stated of it. `gl_loader` panics on a name that holds a
    /// NUL byte, which `requires` leaves out.
    #[verifier::external_body]
    pub(crate) fn proc_address(&self, name: &str) -> (res: ProcLookup)
        requires
            !name@.contains('\0'),
        ensures
            res.name() == name@,
    {
        ProcLookup { address: gl_loader::get_proc_address(name) as usize, name: Ghost(name@) }
    }
}

/// The outcome of looking up an OpenGL function in the library. Only
/// `GlLibrary::proc_address` makes one, so its name is the name that was
/// handed to the lookup, and its address is what the lookup gave back.
pub struct ProcLookup {
    address: usize,
    name: Ghost<Seq<char>>,
}

impl ProcLookup {
    /// The name of the function that was looked up.
    pub closed spec fn name(&self) -> Seq<char> {
        self.name@
    }

    /// The address that the lookup gave back.
    pub closed spec fn found_address(&self) -> usize {
        self.address
    }

    /// The address that the lookup gave back.
    pub fn address(&self) -> (a: usize)
        ensures
            a == self.found_address(),
    {
        self.address
    }
}

/// The address that any lookup hands back, by its spec and by `address`, is
/// the address recorded in it when it was made: the value that
/// `gl_loader::get_proc_address` returned for its name, as only
/// `GlLibrary::proc_address` records one. The value itself depends on the
/// machine and is not named.
proof fn lemma_found_address_is_recorded(l: &ProcLookup)
    ensures
        l.found_address() == l.address,
{
}

} // verus!
