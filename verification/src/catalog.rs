//! The component catalog: its entries, the conversion of a stored row into an
//! entry, and the built-in types that every organization is seeded with.

use vstd::prelude::*;
use uuid::Uuid;
use serde_json::Value;
use crate::db::{DbUuid, Timestamp};

verus! {

/// A component type offered by an organization's catalog.
#[derive(Debug)]
pub struct CatalogEntry {
    pub id: Uuid,
    pub org_id: Uuid,
    pub type_key: String,
    pub label: String,
    pub description: Option<String>,
    pub icon: String,
    pub color: String,
    pub category: Option<String>,
    pub default_check_cmd: Option<String>,
    pub default_start_cmd: Option<String>,
    pub default_stop_cmd: Option<String>,
    pub default_env_vars: Option<Value>,
    pub display_order: i32,
    pub is_builtin: bool,
    pub created_at: Timestamp,
    pub updated_at: Timestamp,
}

/// A catalog row as the database returns it.
#[derive(Debug)]
pub struct CatalogRow {
    pub id: DbUuid,
    pub org_id: DbUuid,
    pub type_key: String,
    pub label: String,
    pub description: Option<String>,
    pub icon: String,
    pub color: String,
    pub category: Option<String>,
    pub default_check_cmd: Option<String>,
    pub default_start_cmd: Option<String>,
    pub default_stop_cmd: Option<String>,
    pub default_env_vars: Option<Value>,
    pub display_order: i32,
    pub is_builtin: bool,
    pub created_at: Timestamp,
    pub updated_at: Timestamp,
}

impl CatalogRow {
    /// The entry that the row describes, field for field.
    pub fn into_entry(self) -> (r: CatalogEntry)
        ensures
            r.id == self.id.0,
            r.org_id == self.org_id.0,
            r.type_key == self.type_key,
            r.label == self.label,
            r.description == self.description,
            r.icon == self.icon,
            r.color == self.color,
            r.category == self.category,
            r.default_check_cmd == self.default_check_cmd,
            r.default_start_cmd == self.default_start_cmd,
            r.default_stop_cmd == self.default_stop_cmd,
            r.default_env_vars == self.default_env_vars,
            r.display_order == self.display_order,
            r.is_builtin == self.is_builtin,
            r.created_at == self.created_at,
            r.updated_at == self.updated_at,
    {
        CatalogEntry {
            id: self.id.into_inner(),
            org_id: self.org_id.into_inner(),
            type_key: self.type_key,
            label: self.label,
            description: self.description,
            icon: self.icon,
            color: self.color,
            category: self.category,
            default_check_cmd: self.default_check_cmd,
            default_start_cmd: self.default_start_cmd,
            default_stop_cmd: self.default_stop_cmd,
            default_env_vars: self.default_env_vars,
            display_order: self.display_order,
            is_builtin: self.is_builtin,
            created_at: self.created_at,
            updated_at: self.updated_at,
        }
    }
}

/// One built-in catalog type, as seeded.
#[derive(Debug, Clone, Copy)]
pub struct BuiltinCatalogType {
    pub type_key: &'static str,
    pub label: &'static str,
    pub description: &'static str,
    pub icon: &'static str,
    pub color: &'static str,
    pub category: &'static str,
    pub display_order: i32,
}

/// The text of a built-in type: key, label, description, icon, color and
/// category, with its display order.
pub struct BuiltinTypeText {
    pub type_key: Seq<char>,
    pub label: Seq<char>,
    pub description: Seq<char>,
    pub icon: Seq<char>,
    pub color: Seq<char>,
    pub category: Seq<char>,
    pub display_order: int,
}

/// The text of a built-in type value.
pub open spec fn builtin_text(t: BuiltinCatalogType) -> BuiltinTypeText {
    BuiltinTypeText {
        type_key: t.type_key@,
        label: t.label@,
        description: t.description@,
        icon: t.icon@,
        color: t.color@,
        category: t.category@,
        display_order: t.display_order as int,
    }
}

/// The eight built-in types, in seeding order.
pub open spec fn builtin_catalog() -> Seq<BuiltinTypeText> {
    seq![
        BuiltinTypeText { type_key: "database"@, label: "Database"@, description: "SQL, NoSQL, or data stores"@,
            icon: "database"@, color: "#1565C0"@, category: "database"@, display_order: 0 },
        BuiltinTypeText { type_key: "middleware"@, label: "Middleware"@, description: "Message queues, cache, ESB"@,
            icon: "layers"@, color: "#6A1B9A"@, category: "middleware"@, display_order: 1 },
        BuiltinTypeText { type_key: "appserver"@, label: "App Server"@, description: "Application servers, backends"@,
            icon: "server"@, color: "#2E7D32"@, category: "application"@, display_order: 2 },
        BuiltinTypeText { type_key: "webfront"@, label: "Web Front"@, description: "Web servers, load balancers"@,
            icon: "globe"@, color: "#E65100"@, category: "access"@, display_order: 3 },
        BuiltinTypeText { type_key: "service"@, label: "Service"@, description: "Microservices, APIs"@,
            icon: "cog"@, color: "#37474F"@, category: "application"@, display_order: 4 },
        BuiltinTypeText { type_key: "batch"@, label: "Batch"@, description: "Scheduled jobs, ETL"@,
            icon: "clock"@, color: "#4E342E"@, category: "scheduler"@, display_order: 5 },
        BuiltinTypeText { type_key: "custom"@, label: "Custom"@, description: "Other component types"@,
            icon: "box"@, color: "#455A64"@, category: "other"@, display_order: 6 },
        BuiltinTypeText { type_key: "application"@, label: "Application"@,
            description: "Reference to another app (synthetic)"@, icon: "folder"@, color: "#3B82F6"@,
            category: "composite"@, display_order: 7 },
    ]
}

fn builtin(
    type_key: &'static str,
    label: &'static str,
    description: &'static str,
    icon: &'static str,
    color: &'static str,
    category: &'static str,
    display_order: i32,
) -> (r: BuiltinCatalogType)
    ensures
        r.type_key == type_key,
        r.label == label,
        r.description == description,
        r.icon == icon,
        r.color == color,
        r.category == category,
        r.display_order == display_order,
{
    BuiltinCatalogType { type_key, label, description, icon, color, category, display_order }
}

/// The built-in types that seeding inserts into every organization's catalog.
pub fn builtin_catalog_types() -> (r: Vec<BuiltinCatalogType>)
    ensures
        r@.len() == builtin_catalog().len(),
        forall|i: int| 0 <= i < r@.len() ==> builtin_text(#[trigger] r@[i]) == builtin_catalog()[i],
{
    let mut v: Vec<BuiltinCatalogType> = Vec::new();
    v.push(builtin("database", "Database", "SQL, NoSQL, or data stores", "database", "#1565C0", "database", 0));
    v.push(builtin("middleware", "Middleware", "Message queues, cache, ESB", "layers", "#6A1B9A", "middleware", 1));
    v.push(builtin("appserver", "App Server", "Application servers, backends", "server", "#2E7D32", "application", 2));
    v.push(builtin("webfront", "Web Front", "Web servers, load balancers", "globe", "#E65100", "access", 3));
    v.push(builtin("service", "Service", "Microservices, APIs", "cog", "#37474F", "application", 4));
    v.push(builtin("batch", "Batch", "Scheduled jobs, ETL", "clock", "#4E342E", "scheduler", 5));
    v.push(builtin("custom", "Custom", "Other component types", "box", "#455A64", "other", 6));
    v.push(builtin("application", "Application", "Reference to another app (synthetic)", "folder", "#3B82F6", "composite", 7));
    assert(forall|i: int| 0 <= i < v@.len() ==> builtin_text(#[trigger] v@[i]) == builtin_catalog()[i]);
    v
}

/// The label, description, icon, color and category that the built-in type
/// `key` is seeded with, or `None` when `key` is no built-in type.
pub open spec fn seeded_attributes(key: Seq<char>) -> Option<(Seq<char>, Seq<char>, Seq<char>, Seq<char>, Seq<char>)> {
    if key == "database"@ {
        Some(("Database"@, "SQL, NoSQL, or data stores"@, "database"@, "#1565C0"@, "database"@))
    } else     if key == "middleware"@ {
        Some(("Middleware"@, "Message queues, cache, ESB"@, "layers"@, "#6A1B9A"@, "middleware"@))
    } else     if key == "appserver"@ {
        Some(("App Server"@, "Application servers, backends"@, "server"@, "#2E7D32"@, "application"@))
    } else     if key == "webfront"@ {
        Some(("Web Front"@, "Web servers, load balancers"@, "globe"@, "#E65100"@, "access"@))
    } else     if key == "service"@ {
        Some(("Service"@, "Microservices, APIs"@, "cog"@, "#37474F"@, "application"@))
    } else     if key == "batch"@ {
        Some(("Batch"@, "Scheduled jobs, ETL"@, "clock"@, "#4E342E"@, "scheduler"@))
    } else     if key == "custom"@ {
        Some(("Custom"@, "Other component types"@, "box"@, "#455A64"@, "other"@))
    } else     if key == "application"@ {
        Some(("Application"@, "Reference to another app (synthetic)"@, "folder"@, "#3B82F6"@, "composite"@))
    } else {
        None
    }
}

/// The built-in type keys, in seeding order.
pub open spec fn seeded_keys() -> Seq<Seq<char>> {
    seq![
        "database"@,
        "middleware"@,
        "appserver"@,
        "webfront"@,
        "service"@,
        "batch"@,
        "custom"@,
        "application"@,
    ]
}

/// Entry `t` at position `i` of the seeding: the `i`-th key, displayed at
/// `i`, with the attributes of its key.
pub open spec fn law_entry_holds(t: BuiltinTypeText, i: int) -> bool {
    &&& t.type_key == seeded_keys()[i]
    &&& t.display_order == i
    &&& seeded_attributes(t.type_key) == Some((t.label, t.description, t.icon, t.color, t.category))
}

/// Seeding inserts the eight built-in types in order, each once, each with
/// the label, description, icon, color and category of its key, displayed
/// in seeding order.
pub proof fn law_seeded_types_have_their_attributes()
    ensures
        builtin_catalog().len() == seeded_keys().len(),
        forall|i: int| 0 <= i < builtin_catalog().len() ==> law_entry_holds(#[trigger] builtin_catalog()[i], i),
        forall|i: int, j: int| 0 <= i < j < seeded_keys().len() ==> seeded_keys()[i] != seeded_keys()[j],
{
    reveal_strlit("database");
    reveal_strlit("middleware");
    reveal_strlit("appserver");
    reveal_strlit("webfront");
    reveal_strlit("service");
    reveal_strlit("batch");
    reveal_strlit("custom");
    reveal_strlit("application");
    assert forall|i: int, j: int| 0 <= i < j < seeded_keys().len() implies seeded_keys()[i] != seeded_keys()[j] by {
        assert(seeded_keys()[i][0] != seeded_keys()[j][0] || seeded_keys()[i].len() != seeded_keys()[j].len()
            || seeded_keys()[i][1] != seeded_keys()[j][1]);
    }
    assert(law_entry_holds(builtin_catalog()[0], 0));
    assert(law_entry_holds(builtin_catalog()[1], 1));
    assert(law_entry_holds(builtin_catalog()[2], 2));
    assert(law_entry_holds(builtin_catalog()[3], 3));
    assert(law_entry_holds(builtin_catalog()[4], 4));
    assert(law_entry_holds(builtin_catalog()[5], 5));
    assert(law_entry_holds(builtin_catalog()[6], 6));
    assert(law_entry_holds(builtin_catalog()[7], 7));
}

/// The sum of a sequence of row counts.
pub open spec fn total_rows(counts: Seq<u64>) -> nat
    decreases counts.len(),
{
    if counts.len() == 0 {
        0
    } else {
        total_rows(counts.drop_last()) + counts.last() as nat
    }
}

/// How many catalog rows the seeding inserted: the sum of the rows that
/// each insert affected (an insert that met an existing key affects none).
pub fn total_inserted(counts: &Vec<u64>) -> (r: u64)
    requires
        total_rows(counts@) <= u64::MAX,
    ensures
        r == total_rows(counts@),
{
    let mut sum: u64 = 0;
    let mut i: usize = 0;
    while i < counts.len()
        invariant
            i <= counts@.len(),
            total_rows(counts@) <= u64::MAX,
            sum == total_rows(counts@.take(i as int)),
        decreases counts@.len() - i,
    {
        assert(counts@.take(i + 1).drop_last() =~= counts@.take(i as int));
        proof {
            lemma_total_prefix(counts@, (i + 1) as int);
        }
        sum = sum + counts[i];
        i = i + 1;
    }
    assert(counts@.take(counts@.len() as int) =~= counts@);
    sum
}

/// Seeding inserts at most one row per built-in type: when no insert
/// affects more than one row, the total is at most the number of inserts.
pub proof fn law_seeding_inserts_at_most_one_row_per_type(counts: Seq<u64>)
    requires
        forall|i: int| 0 <= i < counts.len() ==> #[trigger] counts[i] <= 1,
    ensures
        total_rows(counts) <= counts.len(),
    decreases counts.len(),
{
    if counts.len() > 0 {
        let init = counts.drop_last();
        assert forall|i: int| 0 <= i < init.len() implies #[trigger] init[i] <= 1 by {
            assert(init[i] == counts[i]);
        }
        law_seeding_inserts_at_most_one_row_per_type(init);
        assert(counts[counts.len() - 1] <= 1);
    }
}

/// The total of two runs of inserts, one after the other, is the sum of
/// their totals; one insert's total is its own row count.
pub proof fn law_total_adds_up(a: Seq<u64>, b: Seq<u64>, x: u64)
    ensures
        total_rows(a + b) == total_rows(a) + total_rows(b),
        total_rows(seq![x]) == x,
    decreases b.len(),
{
    assert(seq![x].drop_last() =~= Seq::<u64>::empty());
    assert(total_rows(seq![x].drop_last()) == 0);
    assert(seq![x].last() == x);
    if b.len() == 0 {
        assert(a + b =~= a);
    } else {
        law_total_adds_up(a, b.drop_last(), x);
        assert((a + b).drop_last() =~= a + b.drop_last());
        assert((a + b).last() == b.last());
    }
}

/// When no insert affects a row (every built-in type already exists), the
/// seeding inserted nothing.
pub proof fn law_nothing_new_inserts_nothing(counts: Seq<u64>)
    requires
        forall|i: int| 0 <= i < counts.len() ==> #[trigger] counts[i] == 0,
    ensures
        total_rows(counts) == 0,
    decreases counts.len(),
{
    if counts.len() > 0 {
        let init = counts.drop_last();
        assert forall|i: int| 0 <= i < init.len() implies #[trigger] init[i] == 0 by {
            assert(init[i] == counts[i]);
        }
        law_nothing_new_inserts_nothing(init);
        assert(counts[counts.len() - 1] == 0);
    }
}

proof fn lemma_total_prefix(counts: Seq<u64>, k: int)
    requires
        0 <= k <= counts.len(),
    ensures
        total_rows(counts.take(k)) <= total_rows(counts),
    decreases counts.len(),
{
    if k < counts.len() {
        assert(counts.drop_last().take(k) =~= counts.take(k));
        lemma_total_prefix(counts.drop_last(), k);
    } else {
        assert(counts.take(k) =~= counts);
    }
}

} // verus!
