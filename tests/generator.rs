use blips::generator::{generate, generate_operation, join_strings, GenError, OperationKind};
use blips::graphql::{create_board, uncomplete_task, CreateBoard, UncompleteTask};
use blips::names::{module_name, operation_name, replace_all, sanitize_name};
use blips::roots::{MutationType, QueryType};
use blips::schema::{
    find_type, render_type_name, resolve_type_name, Argument, Field, FullType, ObjectType, Schema,
    TypeRef,
};

fn named(kind: &str, name: &str) -> TypeRef {
    let name = name.to_string();
    match kind {
        "scalar" => TypeRef::Scalar { name },
        "object" => TypeRef::Object { name },
        "enum" => TypeRef::Enum { name },
        "interface" => TypeRef::Interface { name },
        _ => TypeRef::InputObject { name },
    }
}

fn non_null(t: TypeRef) -> TypeRef {
    TypeRef::NonNull(Box::new(t))
}

fn list(t: TypeRef) -> TypeRef {
    TypeRef::List(Box::new(t))
}

fn field(name: &str, args: Vec<Argument>, ty: TypeRef) -> Field {
    Field { name: name.to_string(), args, ty }
}

fn arg(name: &str, ty: TypeRef) -> Argument {
    Argument { name: name.to_string(), ty }
}

fn scalar(name: &str) -> FullType {
    FullType::Scalar { name: name.to_string() }
}

fn object(name: &str, fields: Vec<Field>) -> FullType {
    FullType::Object(ObjectType { name: name.to_string(), fields })
}

fn squash(s: &str) -> String {
    s.split_whitespace().collect::<Vec<_>>().join(" ")
}

fn board_schema() -> Schema {
    Schema {
        query_type: "Query".to_string(),
        mutation_type: Some("Mutation".to_string()),
        types: vec![
            scalar("ID"),
            scalar("String"),
            object(
                "Board",
                vec![
                    field("id", vec![], non_null(named("scalar", "ID"))),
                    field("name", vec![], non_null(named("scalar", "String"))),
                    field("emoji", vec![], named("scalar", "String")),
                ],
            ),
            object(
                "Task",
                vec![
                    field("id", vec![], non_null(named("scalar", "ID"))),
                    field("board", vec![], named("object", "Board")),
                    field("name", vec![], non_null(named("scalar", "String"))),
                    field("status", vec![], named("enum", "Status")),
                    field("tags", vec![], list(non_null(named("scalar", "String")))),
                ],
            ),
            FullType::Enum { name: "Status".to_string() },
            object(
                "Query",
                vec![field("tasks", vec![], non_null(list(non_null(named("object", "Task")))))],
            ),
            object(
                "Mutation",
                vec![
                    field("uncompleteTask", vec![arg("taskId", non_null(named("scalar", "ID")))], named("object", "Task")),
                    field("createBoard", vec![], non_null(named("object", "Board"))),
                ],
            ),
        ],
    }
}

#[test]
fn create_board_document() {
    let schema = board_schema();
    let f = field("createBoard", vec![], non_null(named("object", "Board")));
    let op = generate_operation(&schema, OperationKind::Mutation, &f).unwrap();
    assert_eq!(
        squash(&op.document),
        "mutation CreateBoard { createBoard { ...Board } } fragment Board on Board { __typename id name emoji }"
    );
    assert_eq!(op.module, "create_board");
    assert_eq!(op.name, "CreateBoard");
    assert_eq!(op.kind, OperationKind::Mutation);
}

#[test]
fn create_board_document_exact_text() {
    let schema = board_schema();
    let f = field("createBoard", vec![], non_null(named("object", "Board")));
    let op = generate_operation(&schema, OperationKind::Mutation, &f).unwrap();
    assert_eq!(
        op.document,
        "mutation CreateBoard {\n    createBoard {\n        ...Board\n    }\n}\n\nfragment Board on Board {\n    __typename\n    id\n    name\n    emoji\n}"
    );
}

#[test]
fn uncomplete_task_declares_and_applies_variable() {
    let schema = board_schema();
    let f = field("uncompleteTask", vec![arg("taskId", non_null(named("scalar", "ID")))], named("object", "Task"));
    let op = generate_operation(&schema, OperationKind::Mutation, &f).unwrap();
    assert!(op.document.starts_with("mutation UncompleteTask($task_id: ID!) {"));
    assert!(op.document.contains("uncompleteTask(taskId: $task_id) {"));
    assert_eq!(op.module, "uncomplete_task");
}

#[test]
fn no_arguments_means_no_parentheses() {
    let schema = board_schema();
    let f = field("tasks", vec![], non_null(list(non_null(named("object", "Task")))));
    let op = generate_operation(&schema, OperationKind::Query, &f).unwrap();
    assert!(!op.document.contains('('));
    assert!(!op.document.contains(')'));
    assert!(op.document.starts_with("query Tasks {\n    tasks {\n"));
}

#[test]
fn several_arguments_align_by_position() {
    let schema = board_schema();
    let f = field(
        "moveTask",
        vec![
            arg("taskId", non_null(named("scalar", "ID"))),
            arg("targetBoardId", named("scalar", "ID")),
            arg("labelIds", non_null(list(non_null(named("scalar", "ID"))))),
        ],
        named("object", "Task"),
    );
    let op = generate_operation(&schema, OperationKind::Mutation, &f).unwrap();
    assert!(op.document.starts_with(
        "mutation MoveTask($task_id: ID!, $target_board_id: ID, $label_ids: [ID!]!) {\n    moveTask(taskId: $task_id, targetBoardId: $target_board_id, labelIds: $label_ids) {"
    ));
}

#[test]
fn non_scalar_sub_fields_left_out_in_order() {
    let schema = board_schema();
    let f = field("tasks", vec![], named("object", "Task"));
    let op = generate_operation(&schema, OperationKind::Query, &f).unwrap();
    assert!(op.document.ends_with(
        "fragment Task on Task {\n    __typename\n    id\n    name\n    tags\n}"
    ));
}

#[test]
fn non_object_result_selects_only_typename() {
    let schema = board_schema();
    let f = field("version", vec![], named("scalar", "String"));
    let op = generate_operation(&schema, OperationKind::Query, &f).unwrap();
    assert!(op.document.ends_with("fragment String on String {\n    __typename\n    \n}"));
}

#[test]
fn unknown_field_type_is_an_error() {
    let schema = board_schema();
    let f = field("ghost", vec![], named("object", "Ghost"));
    match generate_operation(&schema, OperationKind::Query, &f) {
        Err(GenError::UnknownFieldType(name)) => assert_eq!(name, "Ghost"),
        other => panic!("unexpected: {:?}", other.map(|o| o.document)),
    }
}

#[test]
fn unknown_sub_field_type_is_an_error() {
    let mut schema = board_schema();
    schema.types.push(object(
        "Broken",
        vec![
            field("id", vec![], named("scalar", "ID")),
            field("owner", vec![], non_null(named("object", "Missing"))),
            field("other", vec![], named("object", "AlsoMissing")),
        ],
    ));
    let f = field("broken", vec![], named("object", "Broken"));
    match generate_operation(&schema, OperationKind::Query, &f) {
        Err(GenError::UnknownFieldType(name)) => assert_eq!(name, "Missing"),
        other => panic!("unexpected: {:?}", other.map(|o| o.document)),
    }
}

#[test]
fn missing_query_root_aborts_the_run() {
    let mut schema = board_schema();
    schema.query_type = "Root".to_string();
    match generate(&schema) {
        Err(GenError::MissingRootType(name)) => assert_eq!(name, "Root"),
        Err(e) => panic!("unexpected error {:?}", e),
        Ok(_) => panic!("expected an error"),
    }
}

#[test]
fn query_root_must_be_an_object() {
    let mut schema = board_schema();
    schema.types.insert(0, scalar("Root"));
    schema.query_type = "Root".to_string();
    assert!(QueryType::from_schema(&schema).is_err());
    assert!(generate(&schema).is_err());
}

#[test]
fn missing_mutation_root_aborts_the_run() {
    let mut schema = board_schema();
    schema.mutation_type = Some("Mutations".to_string());
    match generate(&schema) {
        Err(GenError::MissingRootType(name)) => assert_eq!(name, "Mutations"),
        Err(e) => panic!("unexpected error {:?}", e),
        Ok(_) => panic!("expected an error"),
    }
    assert_eq!(MutationType::from_schema(&schema).err(), Some("No Mutation type found"));
}

#[test]
fn no_mutation_root_is_fine() {
    let mut schema = board_schema();
    schema.mutation_type = None;
    assert!(MutationType::from_schema(&schema).unwrap().is_none());
    let g = generate(&schema).unwrap();
    assert_eq!(g.operations.len(), 1);
    assert_eq!(g.operations[0].kind, OperationKind::Query);
}

#[test]
fn root_fields_keep_declaration_order() {
    let schema = board_schema();
    let q = QueryType::from_schema(&schema).unwrap();
    assert_eq!(q.fields().len(), 1);
    assert_eq!(q.fields()[0].name, "tasks");
    let m = MutationType::from_schema(&schema).unwrap().unwrap();
    let names: Vec<&str> = m.fields().iter().map(|f| f.name.as_str()).collect();
    assert_eq!(names, vec!["uncompleteTask", "createBoard"]);
}

#[test]
fn module_index_sorted_client_in_field_order() {
    let schema = board_schema();
    let g = generate(&schema).unwrap();
    assert_eq!(g.modules, vec!["create_board", "tasks", "uncomplete_task"]);
    assert_eq!(
        g.module_index,
        "pub mod create_board;\npub mod tasks;\npub mod uncomplete_task;\n"
    );
    assert_eq!(
        g.reexports,
        "mod custom_scalars;\nmod generated;\n\n// Auto-generated:\npub use generated::create_board::*;\npub use generated::tasks::*;\npub use generated::uncomplete_task::*;"
    );
    let kinds: Vec<OperationKind> = g.operations.iter().map(|o| o.kind).collect();
    assert_eq!(kinds, vec![OperationKind::Query, OperationKind::Mutation, OperationKind::Mutation]);
    let tasks = g.client_impl.find("pub async fn tasks(").unwrap();
    let uncomplete = g.client_impl.find("pub async fn uncomplete_task(").unwrap();
    let create = g.client_impl.find("pub async fn create_board(").unwrap();
    assert!(tasks < uncomplete && uncomplete < create);
    assert!(g.client_impl.starts_with("impl crate::BlipsClient {\n    pub async fn tasks(\n"));
    assert!(g.client_impl.ends_with("    }\n}"));
}

#[test]
fn client_method_text() {
    let schema = board_schema();
    let f = field("createBoard", vec![], non_null(named("object", "Board")));
    let op = generate_operation(&schema, OperationKind::Mutation, &f).unwrap();
    assert_eq!(
        op.client_method,
        "pub async fn create_board(\n        &self,\n        variables: crate::graphql::create_board::Variables,\n    ) -> Result<crate::graphql::create_board::ResponseData, reqwest::Error> {\n        let response_body = self\n            .post_graphql::<crate::graphql::CreateBoard>(variables)\n            .await?;\n\n        Ok(response_body.data.expect(\"No data\"))\n    }"
    );
}

#[test]
fn generating_twice_gives_identical_output() {
    let schema = board_schema();
    let a = generate(&schema).unwrap();
    let b = generate(&schema).unwrap();
    assert_eq!(a.modules, b.modules);
    assert_eq!(a.module_index, b.module_index);
    assert_eq!(a.reexports, b.reexports);
    assert_eq!(a.client_impl, b.client_impl);
    for (x, y) in a.operations.iter().zip(b.operations.iter()) {
        assert_eq!(x.document, y.document);
        assert_eq!(x.module, y.module);
    }
}

#[test]
fn empty_roots_give_empty_aggregates() {
    let schema = Schema {
        query_type: "Query".to_string(),
        mutation_type: None,
        types: vec![object("Query", vec![])],
    };
    let g = generate(&schema).unwrap();
    assert!(g.operations.is_empty());
    assert_eq!(g.module_index, "\n");
    assert_eq!(g.reexports, "mod custom_scalars;\nmod generated;\n\n// Auto-generated:");
    assert_eq!(g.client_impl, "impl crate::BlipsClient {\n    \n}");
}

#[test]
fn oauth_spelling_is_corrected() {
    assert_eq!(sanitize_name("connectOAuthProvider".to_string()), "connectOauthProvider");
    assert_eq!(sanitize_name("OAuthOAuth".to_string()), "OauthOauth");
    assert_eq!(sanitize_name("plain".to_string()), "plain");
    assert_eq!(operation_name(&"connectOAuthProvider".to_string()), "ConnectOauthProvider");
    assert_eq!(module_name(&"connectOAuthProvider".to_string()), "connect_oauth_provider");
}

#[test]
fn replace_all_cases() {
    assert_eq!(replace_all("aXbXc", "X", "--"), "a--b--c");
    assert_eq!(replace_all("aaa", "aa", "b"), "ba");
    assert_eq!(replace_all("", "x", "y"), "");
    assert_eq!(replace_all("héllo", "l", "L"), "héLLo");
}

#[test]
fn type_references_render_and_resolve() {
    let t = non_null(list(non_null(named("scalar", "ID"))));
    assert_eq!(render_type_name(&t), "[ID!]!");
    assert_eq!(resolve_type_name(&t), "ID");
    let u = list(list(named("input", "Filter")));
    assert_eq!(render_type_name(&u), "[[Filter]]");
    assert_eq!(resolve_type_name(&u), "Filter");
    assert_eq!(render_type_name(&named("interface", "Node")), "Node");
}

#[test]
fn find_type_takes_the_first_match() {
    let types = vec![scalar("A"), object("B", vec![]), scalar("B")];
    match find_type(&types, &"B".to_string()) {
        Some(FullType::Object(o)) => assert_eq!(o.name, "B"),
        _ => panic!("expected the object B"),
    }
    assert!(find_type(&types, &"C".to_string()).is_none());
}

#[test]
fn join_strings_cases() {
    let parts = vec!["a".to_string(), "b".to_string(), "c".to_string()];
    assert_eq!(join_strings(&parts, ", "), "a, b, c");
    assert_eq!(join_strings(&vec![], ", "), "");
    assert_eq!(join_strings(&vec!["x".to_string()], ", "), "x");
}

#[test]
fn build_query_bodies() {
    let body = CreateBoard::build_query(create_board::Variables);
    assert_eq!(body.operation_name, "CreateBoard");
    assert!(body.query.starts_with("mutation CreateBoard {"));
    let body = UncompleteTask::build_query(uncomplete_task::Variables { task_id: "t1".to_string() });
    assert_eq!(body.variables.task_id, "t1");
    assert_eq!(body.operation_name, uncomplete_task::OPERATION_NAME);
    assert!(body.query.starts_with("mutation UncompleteTask($task_id: ID!) {"));
}

#[test]
fn replace_all_with_empty_pattern_keeps_input() {
    assert_eq!(replace_all("abc", "", "x"), "abc");
}

#[test]
fn error_messages_name_the_type() {
    assert_eq!(
        GenError::MissingRootType("Root".to_string()).message(),
        "No object type found for root type 'Root'"
    );
    assert_eq!(
        GenError::UnknownFieldType("Ghost".to_string()).message(),
        "No type found for field type 'Ghost'"
    );
}
