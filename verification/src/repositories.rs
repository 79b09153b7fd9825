//! The repository handles: one per domain and database engine, each holding
//! the connection pool that its queries run on. The pool type is a parameter:
//! `sqlx::PgPool` for the PostgreSQL repositories, `sqlx::SqlitePool` for the
//! SQLite ones.

use vstd::prelude::*;

verus! {

/// The PostgreSQL repository for agents.
pub struct PgAgentRepository<P> {
    pool: P,
}

impl<P> PgAgentRepository<P> {
    /// The pool that the repository's queries run on.
    pub closed spec fn held_pool(&self) -> P {
        self.pool
    }

    /// A repository whose queries run on `pool`.
    pub fn new(pool: P) -> (r: Self)
        ensures
            r.held_pool() == pool,
    {
        Self { pool }
    }

    /// The pool that the repository's queries run on.
    pub fn pool(&self) -> (r: &P)
        ensures
            *r == self.held_pool(),
    {
        &self.pool
    }
}

/// The SQLite repository for agents.
pub struct SqliteAgentRepository<P> {
    pool: P,
}

impl<P> SqliteAgentRepository<P> {
    /// The pool that the repository's queries run on.
    pub closed spec fn held_pool(&self) -> P {
        self.pool
    }

    /// A repository whose queries run on `pool`.
    pub fn new(pool: P) -> (r: Self)
        ensures
            r.held_pool() == pool,
    {
        Self { pool }
    }

    /// The pool that the repository's queries run on.
    pub fn pool(&self) -> (r: &P)
        ensures
            *r == self.held_pool(),
    {
        &self.pool
    }
}

/// The PostgreSQL repository for applications.
pub struct PgAppRepository<P> {
    pool: P,
}

impl<P> PgAppRepository<P> {
    /// The pool that the repository's queries run on.
    pub closed spec fn held_pool(&self) -> P {
        self.pool
    }

    /// A repository whose queries run on `pool`.
    pub fn new(pool: P) -> (r: Self)
        ensures
            r.held_pool() == pool,
    {
        Self { pool }
    }

    /// The pool that the repository's queries run on.
    pub fn pool(&self) -> (r: &P)
        ensures
            *r == self.held_pool(),
    {
        &self.pool
    }
}

/// The SQLite repository for applications.
pub struct SqliteAppRepository<P> {
    pool: P,
}

impl<P> SqliteAppRepository<P> {
    /// The pool that the repository's queries run on.
    pub closed spec fn held_pool(&self) -> P {
        self.pool
    }

    /// A repository whose queries run on `pool`.
    pub fn new(pool: P) -> (r: Self)
        ensures
            r.held_pool() == pool,
    {
        Self { pool }
    }

    /// The pool that the repository's queries run on.
    pub fn pool(&self) -> (r: &P)
        ensures
            *r == self.held_pool(),
    {
        &self.pool
    }
}

/// The PostgreSQL repository for cluster members.
pub struct PgClusterMemberRepository<P> {
    pool: P,
}

impl<P> PgClusterMemberRepository<P> {
    /// The pool that the repository's queries run on.
    pub closed spec fn held_pool(&self) -> P {
        self.pool
    }

    /// A repository whose queries run on `pool`.
    pub fn new(pool: P) -> (r: Self)
        ensures
            r.held_pool() == pool,
    {
        Self { pool }
    }

    /// The pool that the repository's queries run on.
    pub fn pool(&self) -> (r: &P)
        ensures
            *r == self.held_pool(),
    {
        &self.pool
    }
}

/// The SQLite repository for cluster members.
pub struct SqliteClusterMemberRepository<P> {
    pool: P,
}

impl<P> SqliteClusterMemberRepository<P> {
    /// The pool that the repository's queries run on.
    pub closed spec fn held_pool(&self) -> P {
        self.pool
    }

    /// A repository whose queries run on `pool`.
    pub fn new(pool: P) -> (r: Self)
        ensures
            r.held_pool() == pool,
    {
        Self { pool }
    }

    /// The pool that the repository's queries run on.
    pub fn pool(&self) -> (r: &P)
        ensures
            *r == self.held_pool(),
    {
        &self.pool
    }
}

/// The PostgreSQL repository for components.
pub struct PgComponentRepository<P> {
    pool: P,
}

impl<P> PgComponentRepository<P> {
    /// The pool that the repository's queries run on.
    pub closed spec fn held_pool(&self) -> P {
        self.pool
    }

    /// A repository whose queries run on `pool`.
    pub fn new(pool: P) -> (r: Self)
        ensures
            r.held_pool() == pool,
    {
        Self { pool }
    }

    /// The pool that the repository's queries run on.
    pub fn pool(&self) -> (r: &P)
        ensures
            *r == self.held_pool(),
    {
        &self.pool
    }
}

/// The SQLite repository for components.
pub struct SqliteComponentRepository<P> {
    pool: P,
}

impl<P> SqliteComponentRepository<P> {
    /// The pool that the repository's queries run on.
    pub closed spec fn held_pool(&self) -> P {
        self.pool
    }

    /// A repository whose queries run on `pool`.
    pub fn new(pool: P) -> (r: Self)
        ensures
            r.held_pool() == pool,
    {
        Self { pool }
    }

    /// The pool that the repository's queries run on.
    pub fn pool(&self) -> (r: &P)
        ensures
            *r == self.held_pool(),
    {
        &self.pool
    }
}

/// The PostgreSQL repository for enrollment tokens.
pub struct PgEnrollmentRepository<P> {
    pool: P,
}

impl<P> PgEnrollmentRepository<P> {
    /// The pool that the repository's queries run on.
    pub closed spec fn held_pool(&self) -> P {
        self.pool
    }

    /// A repository whose queries run on `pool`.
    pub fn new(pool: P) -> (r: Self)
        ensures
            r.held_pool() == pool,
    {
        Self { pool }
    }

    /// The pool that the repository's queries run on.
    pub fn pool(&self) -> (r: &P)
        ensures
            *r == self.held_pool(),
    {
        &self.pool
    }
}

/// The SQLite repository for enrollment tokens.
pub struct SqliteEnrollmentRepository<P> {
    pool: P,
}

impl<P> SqliteEnrollmentRepository<P> {
    /// The pool that the repository's queries run on.
    pub closed spec fn held_pool(&self) -> P {
        self.pool
    }

    /// A repository whose queries run on `pool`.
    pub fn new(pool: P) -> (r: Self)
        ensures
            r.held_pool() == pool,
    {
        Self { pool }
    }

    /// The pool that the repository's queries run on.
    pub fn pool(&self) -> (r: &P)
        ensures
            *r == self.held_pool(),
    {
        &self.pool
    }
}

/// The PostgreSQL repository for gateways.
pub struct PgGatewayRepository<P> {
    pool: P,
}

impl<P> PgGatewayRepository<P> {
    /// The pool that the repository's queries run on.
    pub closed spec fn held_pool(&self) -> P {
        self.pool
    }

    /// A repository whose queries run on `pool`.
    pub fn new(pool: P) -> (r: Self)
        ensures
            r.held_pool() == pool,
    {
        Self { pool }
    }

    /// The pool that the repository's queries run on.
    pub fn pool(&self) -> (r: &P)
        ensures
            *r == self.held_pool(),
    {
        &self.pool
    }
}

/// The SQLite repository for gateways.
pub struct SqliteGatewayRepository<P> {
    pool: P,
}

impl<P> SqliteGatewayRepository<P> {
    /// The pool that the repository's queries run on.
    pub closed spec fn held_pool(&self) -> P {
        self.pool
    }

    /// A repository whose queries run on `pool`.
    pub fn new(pool: P) -> (r: Self)
        ensures
            r.held_pool() == pool,
    {
        Self { pool }
    }

    /// The pool that the repository's queries run on.
    pub fn pool(&self) -> (r: &P)
        ensures
            *r == self.held_pool(),
    {
        &self.pool
    }
}

/// The PostgreSQL repository for hostings.
pub struct PgHostingRepository<P> {
    pool: P,
}

impl<P> PgHostingRepository<P> {
    /// The pool that the repository's queries run on.
    pub closed spec fn held_pool(&self) -> P {
        self.pool
    }

    /// A repository whose queries run on `pool`.
    pub fn new(pool: P) -> (r: Self)
        ensures
            r.held_pool() == pool,
    {
        Self { pool }
    }

    /// The pool that the repository's queries run on.
    pub fn pool(&self) -> (r: &P)
        ensures
            *r == self.held_pool(),
    {
        &self.pool
    }
}

/// The SQLite repository for hostings.
pub struct SqliteHostingRepository<P> {
    pool: P,
}

impl<P> SqliteHostingRepository<P> {
    /// The pool that the repository's queries run on.
    pub closed spec fn held_pool(&self) -> P {
        self.pool
    }

    /// A repository whose queries run on `pool`.
    pub fn new(pool: P) -> (r: Self)
        ensures
            r.held_pool() == pool,
    {
        Self { pool }
    }

    /// The pool that the repository's queries run on.
    pub fn pool(&self) -> (r: &P)
        ensures
            *r == self.held_pool(),
    {
        &self.pool
    }
}

/// The PostgreSQL repository for permissions, teams and share links.
pub struct PgPermissionRepository<P> {
    pool: P,
}

impl<P> PgPermissionRepository<P> {
    /// The pool that the repository's queries run on.
    pub closed spec fn held_pool(&self) -> P {
        self.pool
    }

    /// A repository whose queries run on `pool`.
    pub fn new(pool: P) -> (r: Self)
        ensures
            r.held_pool() == pool,
    {
        Self { pool }
    }

    /// The pool that the repository's queries run on.
    pub fn pool(&self) -> (r: &P)
        ensures
            *r == self.held_pool(),
    {
        &self.pool
    }
}

/// The SQLite repository for permissions, teams and share links.
pub struct SqlitePermissionRepository<P> {
    pool: P,
}

impl<P> SqlitePermissionRepository<P> {
    /// The pool that the repository's queries run on.
    pub closed spec fn held_pool(&self) -> P {
        self.pool
    }

    /// A repository whose queries run on `pool`.
    pub fn new(pool: P) -> (r: Self)
        ensures
            r.held_pool() == pool,
    {
        Self { pool }
    }

    /// The pool that the repository's queries run on.
    pub fn pool(&self) -> (r: &P)
        ensures
            *r == self.held_pool(),
    {
        &self.pool
    }
}

} // verus!
