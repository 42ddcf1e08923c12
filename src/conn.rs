use vstd::prelude::*;
use vstd::string::StringSliceAdditionalSpecFns;

verus! {

/// An opaque handle that the store hands out for a pool, a container or an
/// object.
#[derive(Debug, Clone, Copy, PartialEq, Eq, Structural)]
pub struct Handle {
    pub cookie: u64,
}

/// True when `b` can be handed to the store as a C string.
pub open spec fn c_string_safe(b: Seq<u8>) -> bool {
    forall|i: int| 0 <= i < b.len() ==> b[i] != 0u8
}

/// A connection to one container of one pool of the store: the names it was
/// made for, and the pool and container handles once they are held.
#[derive(Debug)]
pub struct DAOSConn {
    pool_name: Vec<u8>,
    cont_name: Vec<u8>,
    poh: Handle,
    coh: Handle,
    valid_poh: bool,
    valid_coh: bool,
}

fn has_no_nul(b: &[u8]) -> (r: bool)
    ensures
        r == c_string_safe(b@),
{
    let mut i: usize = 0;
    while i < b.len()
        invariant
            i <= b@.len(),
            forall|t: int| 0 <= t < i ==> b@[t] != 0u8,
        decreases b.len() - i,
    {
        if b[i] == 0 {
            return false;
        }
        i = i + 1;
    }
    true
}

/// A vector holding the bytes of `b`.
pub fn copy_bytes(b: &[u8]) -> (v: Vec<u8>)
    ensures
        v@ == b@,
{
    let mut v: Vec<u8> = Vec::new();
    let mut i: usize = 0;
    while i < b.len()
        invariant
            i <= b@.len(),
            v@ =~= b@.subrange(0, i as int),
        decreases b.len() - i,
    {
        v.push(b[i]);
        i = i + 1;
    }
    v
}

impl DAOSConn {
    pub closed spec fn pool_name_spec(&self) -> Seq<u8> {
        self.pool_name@
    }

    pub closed spec fn cont_name_spec(&self) -> Seq<u8> {
        self.cont_name@
    }

    /// The pool handle, once connected.
    pub closed spec fn pool(&self) -> Option<Handle> {
        if self.valid_poh {
            Some(self.poh)
        } else {
            None
        }
    }

    /// The container handle, once opened.
    pub closed spec fn container(&self) -> Option<Handle> {
        if self.valid_coh {
            Some(self.coh)
        } else {
            None
        }
    }

    pub closed spec fn wf(&self) -> bool {
        self.valid_coh ==> self.valid_poh
    }

    /// Whether both names can be handed to the store: neither holds a NUL
    /// byte.
    pub fn names_usable(pool_name: &str, cont_name: &str) -> (r: bool)
        ensures
            r == (c_string_safe(pool_name.spec_bytes()) && c_string_safe(cont_name.spec_bytes())),
    {
        has_no_nul(pool_name.as_bytes()) && has_no_nul(cont_name.as_bytes())
    }

    /// The connection to container `cont_name` of pool `pool_name`, given the
    /// outcome of the pool connect and of the container open in it: `Some`,
    /// holding both handles, exactly when the names are usable and both
    /// succeeded.
    pub fn new(
        pool_name: &str,
        cont_name: &str,
        pool: Result<Handle, i32>,
        cont: Result<Handle, i32>,
    ) -> (r: Option<Box<DAOSConn>>)
        ensures
            r is Some <==> (c_string_safe(pool_name.spec_bytes()) && c_string_safe(
                cont_name.spec_bytes(),
            ) && pool is Ok && cont is Ok),
            r matches Some(c) ==> {
                &&& c.wf()
                &&& c.pool_name_spec() == pool_name.spec_bytes()
                &&& c.cont_name_spec() == cont_name.spec_bytes()
                &&& c.pool() == Some(pool->Ok_0)
                &&& c.container() == Some(cont->Ok_0)
            },
    {
        if !Self::names_usable(pool_name, cont_name) {
            return None;
        }
        let poh = match pool {
            Ok(h) => h,
            Err(_) => return None,
        };
        let coh = match cont {
            Ok(h) => h,
            Err(_) => return None,
        };
        Some(
            Box::new(
                DAOSConn {
                    pool_name: copy_bytes(pool_name.as_bytes()),
                    cont_name: copy_bytes(cont_name.as_bytes()),
                    poh,
                    coh,
                    valid_poh: true,
                    valid_coh: true,
                },
            ),
        )
    }

    pub fn pool_name(&self) -> (r: &Vec<u8>)
        ensures
            r@ == self.pool_name_spec(),
    {
        &self.pool_name
    }

    pub fn cont_name(&self) -> (r: &Vec<u8>)
        ensures
            r@ == self.cont_name_spec(),
    {
        &self.cont_name
    }

    pub fn get_poh(&self) -> (r: Option<Handle>)
        ensures
            r == self.pool(),
    {
        match self.valid_poh {
            true => Some(self.poh),
            false => None,
        }
    }

    pub fn get_coh(&self) -> (r: Option<Handle>)
        ensures
            r == self.container(),
    {
        match self.valid_coh {
            true => Some(self.coh),
            false => None,
        }
    }

    /// Gives up the held handles for release, the container's before the
    /// pool's; afterwards the connection holds none.
    pub fn take_handles(&mut self) -> (r: (Option<Handle>, Option<Handle>))
        ensures
            r == (old(self).container(), old(self).pool()),
            final(self).wf(),
            final(self).pool() is None,
            final(self).container() is None,
            final(self).pool_name_spec() == old(self).pool_name_spec(),
            final(self).cont_name_spec() == old(self).cont_name_spec(),
    {
        let c = self.get_coh();
        let p = self.get_poh();
        self.valid_coh = false;
        self.valid_poh = false;
        (c, p)
    }
}

} // verus!
