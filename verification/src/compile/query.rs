//! The query that reads the columns of one table from the catalog.

use vstd::prelude::*;

verus! {

/// The namespace of the database in which tables are looked up; the first
/// parameter of [`FETCH_TABLE_QUERY`].
pub const SCHEMA_NAMESPACE: &'static str = "public";

/// The catalog query. Its parameters are the namespace and the name of the
/// table. It gives one row for each column of the table, and none where the
/// table does not exist: the name of the column, its default expression as
/// stored, `YES` or `NO` for nullable, the native name of its type, the
/// maximum length of a text, whether the column is in the primary key,
/// whether it is unique, and its foreign key as `<table>:<column>`.
pub const FETCH_TABLE_QUERY: &'static str = "
SELECT column_name, column_default, is_nullable, data_type, character_maximum_length,
(
    SELECT
        COUNT(*) > 0
    FROM information_schema.table_constraints tco
    JOIN information_schema.key_column_usage kcu 
    ON kcu.constraint_name = tco.constraint_name
    AND kcu.constraint_schema = tco.constraint_schema
    AND kcu.constraint_name = tco.constraint_name
    WHERE
        tco.constraint_type = 'PRIMARY KEY' AND
        kcu.table_schema = $1 AND
        kcu.table_name = $2 AND
        kcu.column_name = information_schema.columns.column_name
) as is_primary_key,
(
    SELECT
        COUNT(*) > 0
    FROM information_schema.table_constraints tco
    JOIN information_schema.key_column_usage kcu 
    ON kcu.constraint_name = tco.constraint_name
    AND kcu.constraint_schema = tco.constraint_schema
    AND kcu.constraint_name = tco.constraint_name
    WHERE
        tco.constraint_type = 'UNIQUE' AND
        kcu.table_schema = $1 AND
        kcu.table_name = $2 AND
        kcu.column_name = information_schema.columns.column_name
) as is_unique,
(
    SELECT CONCAT(
        rel_tco.table_name,
        ':',
        (
            SELECT u.column_name
            FROM information_schema.constraint_column_usage u
            INNER JOIN information_schema.referential_constraints fk
            ON
                u.constraint_catalog = fk.unique_constraint_catalog AND
                u.constraint_schema = fk.unique_constraint_schema AND
                u.constraint_name = fk.unique_constraint_name
            INNER JOIN information_schema.key_column_usage r
            ON
                r.constraint_catalog = fk.constraint_catalog AND
                r.constraint_schema = fk.constraint_schema AND
                r.constraint_name = fk.constraint_name
            WHERE
                fk.constraint_name = kcu.constraint_name AND
                u.table_schema = kcu.table_schema AND
                u.table_name = rel_tco.table_name
        )
    )
    FROM information_schema.table_constraints tco
    JOIN information_schema.key_column_usage kcu
    ON
        tco.constraint_schema = kcu.constraint_schema AND
        tco.constraint_name = kcu.constraint_name
    JOIN information_schema.referential_constraints rco
    ON
        tco.constraint_schema = rco.constraint_schema AND
        tco.constraint_name = rco.constraint_name
    JOIN information_schema.table_constraints rel_tco
    ON
        rco.unique_constraint_schema = rel_tco.constraint_schema AND
        rco.unique_constraint_name = rel_tco.constraint_name
    WHERE
        tco.constraint_type = 'FOREIGN KEY' AND
        kcu.table_name = $2 AND
        kcu.column_name = information_schema.columns.column_name
    GROUP BY
        kcu.table_schema,
        kcu.table_name,
        rel_tco.table_name,
        rel_tco.table_schema,
        kcu.constraint_name
    ORDER BY
        kcu.table_schema,
        kcu.table_name
) as reference
FROM information_schema.columns
WHERE table_schema = $1
AND table_name = $2;
";

} // verus!
