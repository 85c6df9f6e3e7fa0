//! What the tables of the star schema have in common.

use vstd::prelude::*;

use crate::bench::ssb::{customer_columns, dwdate_columns, lineorder_columns, part_columns, ssb_schema, supplier_columns};

verus! {

/// The name of a column says that it holds keys.
pub open spec fn names_keys(name: Seq<char>) -> bool {
    name.len() > 3 && name.skip(name.len() - 3) == seq!['k', 'e', 'y']
}

/// The columns of a table: each is named after the table, by these letters and an underscore, and
/// holds integers or texts; keys are integers, and the first column holds them.
pub open spec fn table_columns(
    columns: Seq<(Seq<char>, Seq<char>)>,
    letters: Seq<char>,
) -> bool {
    &&& columns.len() > 0
    &&& names_keys(columns[0].0)
    &&& forall|i: int|
        #![trigger columns[i]]
        0 <= i < columns.len() ==> {
            &&& columns[i].0.len() > letters.len() + 1
            &&& columns[i].0.take(letters.len() as int) == letters
            &&& columns[i].0[letters.len() as int] == '_'
            &&& columns[i].1 == "INTEGER"@ || columns[i].1 == "VARCHAR"@
            &&& names_keys(columns[i].0) ==> columns[i].1 == "INTEGER"@
        }
}

proof fn customer_names()
    ensures
        table_columns(customer_columns(), seq!['c']),
{
    reveal_strlit("c_custkey");
    reveal_strlit("c_name");
    reveal_strlit("c_address");
    reveal_strlit("c_city");
    reveal_strlit("c_nation");
    reveal_strlit("c_region");
    reveal_strlit("c_phone");
    reveal_strlit("c_mktsegment");
    let columns = customer_columns();
    let letters = seq!['c'];
    assert(columns[0].0.take(1) =~= letters);
    assert(columns[0].0.skip(6) =~= seq!['k', 'e', 'y']);
    assert(columns[1].0.take(1) =~= letters);
    assert(!names_keys(columns[1].0)) by {
        assert(columns[1].0.skip(3)[2] == 'e');
    }
    assert(columns[2].0.take(1) =~= letters);
    assert(!names_keys(columns[2].0)) by {
        assert(columns[2].0.skip(6)[2] == 's');
    }
    assert(columns[3].0.take(1) =~= letters);
    assert(!names_keys(columns[3].0)) by {
        assert(columns[3].0.skip(3)[2] == 'y');
    }
    assert(columns[4].0.take(1) =~= letters);
    assert(!names_keys(columns[4].0)) by {
        assert(columns[4].0.skip(5)[2] == 'n');
    }
    assert(columns[5].0.take(1) =~= letters);
    assert(!names_keys(columns[5].0)) by {
        assert(columns[5].0.skip(5)[2] == 'n');
    }
    assert(columns[6].0.take(1) =~= letters);
    assert(!names_keys(columns[6].0)) by {
        assert(columns[6].0.skip(4)[2] == 'e');
    }
    assert(columns[7].0.take(1) =~= letters);
    assert(!names_keys(columns[7].0)) by {
        assert(columns[7].0.skip(9)[2] == 't');
    }
}

proof fn supplier_names()
    ensures
        table_columns(supplier_columns(), seq!['s']),
{
    reveal_strlit("s_suppkey");
    reveal_strlit("s_name");
    reveal_strlit("s_address");
    reveal_strlit("s_city");
    reveal_strlit("s_nation");
    reveal_strlit("s_region");
    reveal_strlit("s_phone");
    let columns = supplier_columns();
    let letters = seq!['s'];
    assert(columns[0].0.take(1) =~= letters);
    assert(columns[0].0.skip(6) =~= seq!['k', 'e', 'y']);
    assert(columns[1].0.take(1) =~= letters);
    assert(!names_keys(columns[1].0)) by {
        assert(columns[1].0.skip(3)[2] == 'e');
    }
    assert(columns[2].0.take(1) =~= letters);
    assert(!names_keys(columns[2].0)) by {
        assert(columns[2].0.skip(6)[2] == 's');
    }
    assert(columns[3].0.take(1) =~= letters);
    assert(!names_keys(columns[3].0)) by {
        assert(columns[3].0.skip(3)[2] == 'y');
    }
    assert(columns[4].0.take(1) =~= letters);
    assert(!names_keys(columns[4].0)) by {
        assert(columns[4].0.skip(5)[2] == 'n');
    }
    assert(columns[5].0.take(1) =~= letters);
    assert(!names_keys(columns[5].0)) by {
        assert(columns[5].0.skip(5)[2] == 'n');
    }
    assert(columns[6].0.take(1) =~= letters);
    assert(!names_keys(columns[6].0)) by {
        assert(columns[6].0.skip(4)[2] == 'e');
    }
}

proof fn part_names()
    ensures
        table_columns(part_columns(), seq!['p']),
{
    reveal_strlit("p_partkey");
    reveal_strlit("p_name");
    reveal_strlit("p_mfgr");
    reveal_strlit("p_category");
    reveal_strlit("p_brand1");
    reveal_strlit("p_color");
    reveal_strlit("p_type");
    reveal_strlit("p_size");
    reveal_strlit("p_container");
    let columns = part_columns();
    let letters = seq!['p'];
    assert(columns[0].0.take(1) =~= letters);
    assert(columns[0].0.skip(6) =~= seq!['k', 'e', 'y']);
    assert(columns[1].0.take(1) =~= letters);
    assert(!names_keys(columns[1].0)) by {
        assert(columns[1].0.skip(3)[2] == 'e');
    }
    assert(columns[2].0.take(1) =~= letters);
    assert(!names_keys(columns[2].0)) by {
        assert(columns[2].0.skip(3)[2] == 'r');
    }
    assert(columns[3].0.take(1) =~= letters);
    assert(!names_keys(columns[3].0)) by {
        assert(columns[3].0.skip(7)[2] == 'y');
    }
    assert(columns[4].0.take(1) =~= letters);
    assert(!names_keys(columns[4].0)) by {
        assert(columns[4].0.skip(5)[2] == '1');
    }
    assert(columns[5].0.take(1) =~= letters);
    assert(!names_keys(columns[5].0)) by {
        assert(columns[5].0.skip(4)[2] == 'r');
    }
    assert(columns[6].0.take(1) =~= letters);
    assert(!names_keys(columns[6].0)) by {
        assert(columns[6].0.skip(3)[2] == 'e');
    }
    assert(columns[7].0.take(1) =~= letters);
    assert(columns[8].0.take(1) =~= letters);
    assert(!names_keys(columns[8].0)) by {
        assert(columns[8].0.skip(8)[2] == 'r');
    }
}

proof fn dwdate_names()
    ensures
        table_columns(dwdate_columns(), seq!['d']),
{
    reveal_strlit("d_datekey");
    reveal_strlit("d_date");
    reveal_strlit("d_dayofweek");
    reveal_strlit("d_month");
    reveal_strlit("d_year");
    reveal_strlit("d_yearmonthnum");
    reveal_strlit("d_yearmonth");
    reveal_strlit("d_daynuminweek");
    reveal_strlit("d_daynuminmonth");
    reveal_strlit("d_daynuminyear");
    reveal_strlit("d_monthnuminyear");
    reveal_strlit("d_weeknuminyear");
    reveal_strlit("d_sellingseason");
    reveal_strlit("d_lastdayinweekfl");
    reveal_strlit("d_lastdayinmonthfl");
    reveal_strlit("d_holidayfl");
    reveal_strlit("d_weekdayfl");
    let columns = dwdate_columns();
    let letters = seq!['d'];
    assert(columns[0].0.take(1) =~= letters);
    assert(columns[0].0.skip(6) =~= seq!['k', 'e', 'y']);
    assert(columns[1].0.take(1) =~= letters);
    assert(!names_keys(columns[1].0)) by {
        assert(columns[1].0.skip(3)[2] == 'e');
    }
    assert(columns[2].0.take(1) =~= letters);
    assert(!names_keys(columns[2].0)) by {
        assert(columns[2].0.skip(8)[2] == 'k');
    }
    assert(columns[3].0.take(1) =~= letters);
    assert(!names_keys(columns[3].0)) by {
        assert(columns[3].0.skip(4)[2] == 'h');
    }
    assert(columns[4].0.take(1) =~= letters);
    assert(columns[5].0.take(1) =~= letters);
    assert(columns[6].0.take(1) =~= letters);
    assert(!names_keys(columns[6].0)) by {
        assert(columns[6].0.skip(8)[2] == 'h');
    }
    assert(columns[7].0.take(1) =~= letters);
    assert(columns[8].0.take(1) =~= letters);
    assert(columns[9].0.take(1) =~= letters);
    assert(columns[10].0.take(1) =~= letters);
    assert(columns[11].0.take(1) =~= letters);
    assert(columns[12].0.take(1) =~= letters);
    assert(!names_keys(columns[12].0)) by {
        assert(columns[12].0.skip(12)[2] == 'n');
    }
    assert(columns[13].0.take(1) =~= letters);
    assert(columns[14].0.take(1) =~= letters);
    assert(columns[15].0.take(1) =~= letters);
    assert(columns[16].0.take(1) =~= letters);
}

proof fn lineorder_names()
    ensures
        table_columns(lineorder_columns(), seq!['l', 'o']),
{
    reveal_strlit("lo_orderkey");
    reveal_strlit("lo_linenumber");
    reveal_strlit("lo_custkey");
    reveal_strlit("lo_partkey");
    reveal_strlit("lo_suppkey");
    reveal_strlit("lo_orderdate");
    reveal_strlit("lo_orderpriority");
    reveal_strlit("lo_shippriority");
    reveal_strlit("lo_quantity");
    reveal_strlit("lo_extendedprice");
    reveal_strlit("lo_ordtotalprice");
    reveal_strlit("lo_discount");
    reveal_strlit("lo_revenue");
    reveal_strlit("lo_supplycost");
    reveal_strlit("lo_tax");
    reveal_strlit("lo_commitdate");
    reveal_strlit("lo_shipmode");
    let columns = lineorder_columns();
    let letters = seq!['l', 'o'];
    assert(columns[0].0.take(2) =~= letters);
    assert(columns[0].0.skip(8) =~= seq!['k', 'e', 'y']);
    assert(columns[1].0.take(2) =~= letters);
    assert(columns[2].0.take(2) =~= letters);
    assert(columns[2].0.skip(7) =~= seq!['k', 'e', 'y']);
    assert(columns[3].0.take(2) =~= letters);
    assert(columns[3].0.skip(7) =~= seq!['k', 'e', 'y']);
    assert(columns[4].0.take(2) =~= letters);
    assert(columns[4].0.skip(7) =~= seq!['k', 'e', 'y']);
    assert(columns[5].0.take(2) =~= letters);
    assert(columns[6].0.take(2) =~= letters);
    assert(!names_keys(columns[6].0)) by {
        assert(columns[6].0.skip(13)[2] == 'y');
    }
    assert(columns[7].0.take(2) =~= letters);
    assert(!names_keys(columns[7].0)) by {
        assert(columns[7].0.skip(12)[2] == 'y');
    }
    assert(columns[8].0.take(2) =~= letters);
    assert(columns[9].0.take(2) =~= letters);
    assert(columns[10].0.take(2) =~= letters);
    assert(columns[11].0.take(2) =~= letters);
    assert(columns[12].0.take(2) =~= letters);
    assert(columns[13].0.take(2) =~= letters);
    assert(columns[14].0.take(2) =~= letters);
    assert(columns[15].0.take(2) =~= letters);
    assert(columns[16].0.take(2) =~= letters);
    assert(!names_keys(columns[16].0)) by {
        assert(columns[16].0.skip(8)[2] == 'e');
    }
}

/// Every column of a table is named after it: by its first letter, or two for the orders, and an
/// underscore. Keys are integers.
pub proof fn columns_are_named_after_their_table()
    ensures
        ssb_schema().len() == 5,
        table_columns(ssb_schema()[0].columns, seq!['c']),
        table_columns(ssb_schema()[1].columns, seq!['s']),
        table_columns(ssb_schema()[2].columns, seq!['p']),
        table_columns(ssb_schema()[3].columns, seq!['d']),
        table_columns(ssb_schema()[4].columns, seq!['l', 'o']),
{
    customer_names();
    supplier_names();
    part_names();
    dwdate_names();
    lineorder_names();
}

} // verus!
