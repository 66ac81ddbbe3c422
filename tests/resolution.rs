use report_engine::placeholder::{expand_row, Column, ColumnValue, ResultRow};
use report_engine::resolution::TemplateResolution;

fn text_row(name: &str, value: &str) -> ResultRow {
    ResultRow {
        columns: vec![Column { name: name.to_string(), value: ColumnValue::Text(value.to_string()) }],
    }
}

fn resolve(template: &str, answers: Vec<Vec<ResultRow>>) -> String {
    let mut r = TemplateResolution::new(template);
    for rows in answers {
        assert!(r.pending_query().is_some());
        r.supply_rows(&rows);
    }
    assert!(r.pending_query().is_none());
    r.finish()
}

const TEMPLATE: &str = "Hi {{#sql(SELECT name FROM t)}}{{name}}, {{/sql}}bye";

#[test]
fn two_rows_expand_in_order() {
    let mut r = TemplateResolution::new(TEMPLATE);
    assert_eq!(r.block_count(), 1);
    assert_eq!(r.pending_query(), Some("SELECT name FROM t".to_string()));
    r.supply_rows(&vec![text_row("name", "A"), text_row("name", "B")]);
    assert_eq!(r.pending_query(), None);
    assert_eq!(r.finish(), "Hi A, B, bye");
}

#[test]
fn zero_rows_remove_the_block() {
    assert_eq!(resolve(TEMPLATE, vec![vec![]]), "Hi bye");
}

#[test]
fn document_without_blocks_is_unchanged() {
    let doc = "<p>{{name}} and {{#sql(no close</p>";
    let r = TemplateResolution::new(doc);
    assert_eq!(r.block_count(), 0);
    assert_eq!(r.pending_query(), None);
    assert_eq!(r.finish(), doc);
}

#[test]
fn one_block_n_rows_concatenated() {
    let rows = vec![text_row("n", "1"), text_row("n", "2"), text_row("n", "3")];
    assert_eq!(resolve("[{{#sql(q)}}<{{n}}>{{/sql}}]", vec![rows]), "[<1><2><3>]");
}

#[test]
fn missing_column_resolves_to_empty() {
    let row = text_row("other", "X");
    assert_eq!(expand_row("a{{name}}b", &row), "ab");
    assert_eq!(resolve("{{#sql(q)}}[{{name}}]{{/sql}}", vec![vec![row]]), "[]");
}

#[test]
fn blocks_resolve_in_source_order_independently() {
    let doc = "{{#sql(A)}}{{x}}{{/sql}}-{{#sql(B)}}{{x}}{{/sql}}";
    let mut r = TemplateResolution::new(doc);
    assert_eq!(r.block_count(), 2);
    assert_eq!(r.pending_query(), Some("A".to_string()));
    r.supply_rows(&vec![text_row("x", "{{#sql(B)}}")]);
    assert_eq!(r.pending_query(), Some("B".to_string()));
    r.supply_rows(&vec![text_row("x", "b")]);
    assert_eq!(r.finish(), "{{#sql(B)}}-b");
}

#[test]
fn identical_blocks_replaced_at_their_own_place() {
    let doc = "{{#sql(q)}}{{v}}{{/sql}}|{{#sql(q)}}{{v}}{{/sql}}";
    assert_eq!(resolve(doc, vec![vec![text_row("v", "1")], vec![text_row("v", "2")]]), "1|2");
}

#[test]
fn template_without_placeholders_repeats_verbatim() {
    let rows = vec![text_row("a", "1"), text_row("b", "2")];
    assert_eq!(expand_row("<td>x</td>", &rows[0]), "<td>x</td>");
    assert_eq!(resolve("{{#sql(q)}}<td>x</td>{{/sql}}", vec![rows]), "<td>x</td><td>x</td>");
}

#[test]
fn query_is_trimmed_and_newlines_become_spaces() {
    let r = TemplateResolution::new("{{#sql(\n  SELECT a\nFROM t \n)}}{{a}}{{/sql}}");
    assert_eq!(r.pending_query(), Some("SELECT a FROM t".to_string()));
    assert_eq!(r.block(0).row_template, "{{a}}");
    assert_eq!(r.block(0).start, 0);
}

#[test]
fn unterminated_block_left_untouched() {
    let doc = "x{{#sql(q)}}{{a}}{{/sql}}y{{#sql(r)}}z";
    assert_eq!(resolve(doc, vec![vec![text_row("a", "1")]]), "x1y{{#sql(r)}}z");
}

#[test]
fn value_coercion_ladder() {
    let row = ResultRow {
        columns: vec![
            Column { name: "t".to_string(), value: ColumnValue::Text("txt".to_string()) },
            Column { name: "i".to_string(), value: ColumnValue::Integer(-42) },
            Column { name: "f".to_string(), value: ColumnValue::Float("1.5".to_string()) },
            Column { name: "n".to_string(), value: ColumnValue::Null },
            Column { name: "z".to_string(), value: ColumnValue::Integer(0) },
        ],
    };
    assert_eq!(expand_row("{{t}}/{{i}}/{{f}}/{{n}}/{{z}}", &row), "txt/-42/1.5//0");
}

#[test]
fn integer_extremes_render_in_decimal() {
    let row = ResultRow {
        columns: vec![
            Column { name: "lo".to_string(), value: ColumnValue::Integer(i64::MIN) },
            Column { name: "hi".to_string(), value: ColumnValue::Integer(i64::MAX) },
        ],
    };
    assert_eq!(expand_row("{{lo}} {{hi}}", &row), "-9223372036854775808 9223372036854775807");
}

#[test]
fn first_column_of_a_name_wins_and_names_are_case_sensitive() {
    let row = ResultRow {
        columns: vec![
            Column { name: "a".to_string(), value: ColumnValue::Text("first".to_string()) },
            Column { name: "a".to_string(), value: ColumnValue::Text("second".to_string()) },
            Column { name: "B".to_string(), value: ColumnValue::Text("upper".to_string()) },
        ],
    };
    assert_eq!(expand_row("{{a}}{{b}}{{B}}", &row), "firstupper");
}

#[test]
fn malformed_placeholders_stay_literal() {
    let row = text_row("a", "1");
    assert_eq!(expand_row("{{}} {{ a }} {{a} {{{a}}", &row), "{{}} {{ a }} {{a} {1");
}

#[test]
fn unicode_word_characters_name_a_column() {
    let row = text_row("größe", "9");
    assert_eq!(expand_row("{{größe}}", &row), "9");
}
