use teo::database_type::{
    default_database_type_mssql, default_database_type_mysql, default_database_type_postgresql,
    default_database_type_sqlite, DatabaseType, DbEnum, SQLDialect, ToDatabaseType,
};
use teo::conf::{ClientGeneratorConf, ClientLanguage, EntityGeneratorConf, Environment, ServerConf};
use teo::error::ErrorType;
use teo::field_type::{EnumDefinition, Field, FieldType, Optionality};
use teo::graph_builder::{GraphBuilder, ModelBuilder};
use teo::typescript::ToTypeScriptType;

fn sex() -> FieldType {
    FieldType::Enum(EnumDefinition {
        name: "Sex".to_string(),
        choices: vec!["MALE".to_string(), "FEMALE".to_string()],
    })
}

fn list_of(field_type: FieldType, optionality: Optionality) -> FieldType {
    FieldType::Vec(Box::new(Field { field_type, optionality }))
}

fn map_of(field_type: FieldType) -> FieldType {
    FieldType::HashMap(Box::new(Field { field_type, optionality: Optionality::Required }))
}

fn tree_of(field_type: FieldType) -> FieldType {
    FieldType::BTreeMap(Box::new(Field { field_type, optionality: Optionality::Required }))
}

fn every_type() -> Vec<FieldType> {
    vec![
        FieldType::ObjectId,
        FieldType::Bool,
        FieldType::I32,
        FieldType::I64,
        FieldType::F32,
        FieldType::F64,
        FieldType::Decimal,
        FieldType::String,
        FieldType::Date,
        FieldType::DateTime,
        sex(),
        list_of(FieldType::I32, Optionality::Required),
        map_of(FieldType::I32),
        tree_of(FieldType::I32),
        FieldType::Object("User".to_string()),
    ]
}

fn text() -> DatabaseType {
    DatabaseType::Text { m: None, n: None, c: None }
}

#[test]
fn mysql_column_types() {
    let f = default_database_type_mysql;
    assert_eq!(f(&FieldType::Bool).unwrap(), DatabaseType::TinyInt { m: Some(1), u: false });
    assert_eq!(f(&FieldType::I32).unwrap(), DatabaseType::Int { m: None, u: false });
    assert_eq!(f(&FieldType::I64).unwrap(), DatabaseType::BigInt { m: None, u: false });
    assert_eq!(f(&FieldType::F32).unwrap(), DatabaseType::Float { m: None, d: None });
    assert_eq!(f(&FieldType::F64).unwrap(), DatabaseType::Double { m: None, d: None });
    assert_eq!(f(&FieldType::String).unwrap(), DatabaseType::VarChar { m: 191, n: None, c: None });
    assert_eq!(f(&FieldType::Date).unwrap(), DatabaseType::Date);
    assert_eq!(f(&FieldType::DateTime).unwrap(), DatabaseType::DateTime(3));
    assert_eq!(f(&FieldType::Decimal).unwrap(), DatabaseType::Decimal { m: Some(65), d: Some(30) });
    assert_eq!(
        f(&sex()).unwrap(),
        DatabaseType::Enum(DbEnum { choices: vec!["MALE".to_string(), "FEMALE".to_string()] })
    );
}

#[test]
fn postgresql_column_types() {
    let f = default_database_type_postgresql;
    assert_eq!(f(&FieldType::Bool).unwrap(), DatabaseType::Bool);
    assert_eq!(f(&FieldType::I32).unwrap(), DatabaseType::Int { m: None, u: false });
    assert_eq!(f(&FieldType::I64).unwrap(), DatabaseType::BigInt { m: None, u: false });
    assert_eq!(f(&FieldType::F32).unwrap(), DatabaseType::Real);
    assert_eq!(f(&FieldType::F64).unwrap(), DatabaseType::Double { m: None, d: None });
    assert_eq!(f(&FieldType::String).unwrap(), text());
    assert_eq!(f(&FieldType::Date).unwrap(), DatabaseType::Date);
    assert_eq!(f(&FieldType::DateTime).unwrap(), DatabaseType::Timestamp { p: 3, z: false });
    assert_eq!(f(&FieldType::Decimal).unwrap(), DatabaseType::Decimal { m: Some(65), d: Some(30) });
    assert_eq!(f(&sex()).unwrap(), text());
    let nested = list_of(list_of(FieldType::I64, Optionality::Optional), Optionality::Required);
    assert_eq!(
        f(&nested).unwrap(),
        DatabaseType::Vec(Box::new(DatabaseType::Vec(Box::new(DatabaseType::BigInt {
            m: None,
            u: false
        }))))
    );
}

#[test]
fn sqlite_column_types() {
    let f = default_database_type_sqlite;
    let int = || DatabaseType::Int { m: None, u: false };
    assert_eq!(f(&FieldType::Bool).unwrap(), int());
    assert_eq!(f(&FieldType::I32).unwrap(), int());
    assert_eq!(f(&FieldType::I64).unwrap(), int());
    assert_eq!(f(&FieldType::F32).unwrap(), DatabaseType::Real);
    assert_eq!(f(&FieldType::F64).unwrap(), DatabaseType::Real);
    assert_eq!(f(&FieldType::String).unwrap(), text());
    assert_eq!(f(&FieldType::Date).unwrap(), text());
    assert_eq!(f(&FieldType::DateTime).unwrap(), text());
    assert_eq!(f(&FieldType::Decimal).unwrap(), DatabaseType::Decimal { m: None, d: None });
    assert_eq!(f(&sex()).unwrap(), text());
}

#[test]
fn field_types_without_a_column_type_are_refused() {
    for field_type in every_type() {
        let error = default_database_type_mssql(&field_type).unwrap_err();
        assert_eq!(error.kind, ErrorType::InternalServerError);
        assert_eq!(error.message, "Unhandled.");
    }
    let collections = || {
        vec![
            map_of(FieldType::I32),
            tree_of(FieldType::I32),
            FieldType::Object("User".to_string()),
            FieldType::ObjectId,
        ]
    };
    for field_type in collections() {
        assert!(default_database_type_mysql(&field_type).is_err());
        assert!(default_database_type_postgresql(&field_type).is_err());
        assert!(default_database_type_sqlite(&field_type).is_err());
    }
    let list = list_of(FieldType::I32, Optionality::Required);
    assert!(default_database_type_mysql(&list).is_err());
    assert!(default_database_type_sqlite(&list).is_err());
    let list_of_maps = list_of(map_of(FieldType::I32), Optionality::Required);
    assert!(default_database_type_postgresql(&list_of_maps).is_err());
}

#[test]
fn the_dialect_chooses_the_mapping() {
    let t = FieldType::Bool;
    assert_eq!(
        t.to_database_type(SQLDialect::SQLite).unwrap(),
        DatabaseType::Int { m: None, u: false }
    );
    assert_eq!(
        t.to_database_type(SQLDialect::MySQL).unwrap(),
        DatabaseType::TinyInt { m: Some(1), u: false }
    );
    assert_eq!(t.to_database_type(SQLDialect::PostgreSQL).unwrap(), DatabaseType::Bool);
    assert!(t.to_database_type(SQLDialect::MSSQL).is_err());
}

#[test]
fn typescript_value_types() {
    let ts = |t: &FieldType, optional: bool| t.to_typescript_type(optional).unwrap();
    assert_eq!(ts(&FieldType::ObjectId, false), "string");
    assert_eq!(ts(&FieldType::String, false), "string");
    assert_eq!(ts(&FieldType::Date, false), "string");
    assert_eq!(ts(&FieldType::DateTime, false), "Date");
    assert_eq!(ts(&FieldType::Bool, false), "boolean");
    assert_eq!(ts(&FieldType::I32, false), "number");
    assert_eq!(ts(&FieldType::I64, false), "number");
    assert_eq!(ts(&FieldType::F32, false), "number");
    assert_eq!(ts(&FieldType::F64, true), "number | undefined");
    assert_eq!(ts(&FieldType::Decimal, false), "Decimal");
    assert_eq!(ts(&sex(), true), "Sex | undefined");
    assert_eq!(ts(&FieldType::Object("User".to_string()), false), "User");
    assert_eq!(ts(&list_of(FieldType::I32, Optionality::Required), false), "number[]");
    assert_eq!(
        ts(&list_of(FieldType::String, Optionality::Optional), true),
        "string | undefined[] | undefined"
    );
    assert!(map_of(FieldType::I32).to_typescript_type(false).is_err());
    assert!(tree_of(FieldType::I32).to_typescript_type(true).is_err());
    assert!(list_of(map_of(FieldType::I32), Optionality::Required).to_typescript_type(false).is_err());
}

#[test]
fn typescript_create_input_types() {
    let ts = |t: &FieldType, optional: bool, server: bool| {
        t.to_typescript_create_input_type(optional, server).unwrap()
    };
    assert_eq!(ts(&FieldType::ObjectId, false, false), "string");
    assert_eq!(ts(&FieldType::String, true, false), "string | null");
    assert_eq!(ts(&FieldType::Decimal, false, true), "Decimal");
    assert_eq!(ts(&FieldType::Decimal, true, false), "string | Decimal | null");
    assert_eq!(ts(&FieldType::Date, false, false), "string");
    assert_eq!(ts(&FieldType::DateTime, false, false), "string");
    assert_eq!(ts(&FieldType::Bool, false, false), "boolean");
    assert_eq!(ts(&FieldType::I64, true, true), "number | null");
    assert_eq!(ts(&sex(), false, false), "Sex");
    assert_eq!(ts(&FieldType::Object("User".to_string()), true, false), "User | null");
    assert_eq!(ts(&list_of(FieldType::DateTime, Optionality::Required), true, false), "Date[] | null");
    assert!(map_of(FieldType::I32).to_typescript_create_input_type(false, false).is_err());
    assert_eq!(
        FieldType::Decimal.to_typescript_scalar_update_input_type(true).unwrap(),
        "Decimal | null"
    );
    assert_eq!(FieldType::I32.to_typescript_scalar_update_input_type(false).unwrap(), "number");
}

#[test]
fn typescript_filter_types() {
    let ts = |t: &FieldType, optional: bool, server: bool| {
        t.to_typescript_filter_type(optional, server).unwrap()
    };
    assert_eq!(ts(&FieldType::ObjectId, false, false), "string | ObjectIdFilter");
    assert_eq!(ts(&FieldType::String, false, false), "string | StringFilter");
    assert_eq!(ts(&FieldType::String, true, false), "string | StringNullableFilter | null");
    assert_eq!(ts(&FieldType::Date, false, false), "string | DateFilter");
    assert_eq!(ts(&FieldType::DateTime, true, false), "string | Date | DateTimeNullableFilter | null");
    assert_eq!(ts(&FieldType::Bool, false, false), "boolean | BoolFilter");
    assert_eq!(ts(&FieldType::F32, false, false), "number | NumberFilter");
    assert_eq!(ts(&FieldType::Decimal, false, true), "Decimal | DecimalFilter");
    assert_eq!(ts(&FieldType::Decimal, false, false), "string | Decimal | DecimalFilter");
    assert_eq!(ts(&sex(), false, false), "Sex | EnumFilter<Sex>");
    assert_eq!(ts(&sex(), true, false), "Sex | EnumNullableFilter<Sex> | null");
    let list = list_of(FieldType::Decimal, Optionality::Optional);
    assert_eq!(ts(&list, false, true), "Decimal[] | ArrayFilter<Decimal>");
    assert_eq!(
        ts(&list, true, false),
        "string | Decimal[] | ArrayNullableFilter<string | Decimal> | null"
    );
    assert_eq!(
        ts(&FieldType::Object("User".to_string()), false, false),
        "undefined | UnimplementedFilter"
    );
    assert!(map_of(FieldType::I32).to_typescript_filter_type(false, false).is_err());
    assert!(tree_of(FieldType::I32).to_typescript_filter_type(false, false).is_err());
}

#[test]
fn typescript_update_types() {
    let op = |t: &FieldType, optional: bool| {
        t.to_typescript_update_operation_input(optional, false).unwrap()
    };
    assert_eq!(op(&FieldType::ObjectId, false), "ObjectIdFieldUpdateOperationsInput");
    assert_eq!(op(&FieldType::String, false), "StringFieldUpdateOperationsInput");
    assert_eq!(op(&FieldType::String, true), "NullableStringFieldUpdateOperationsInput");
    assert_eq!(op(&FieldType::Date, false), "DateFieldUpdateOperationsInput");
    assert_eq!(op(&FieldType::DateTime, false), "DateTimeFieldUpdateOperationsInput");
    assert_eq!(op(&FieldType::Decimal, false), "DecimalFieldUpdateOperationsInput");
    assert_eq!(op(&FieldType::Bool, true), "NullableBoolFieldUpdateOperationsInput");
    assert_eq!(op(&FieldType::I64, false), "NumberFieldUpdateOperationsInput");
    assert_eq!(op(&sex(), false), "EnumFieldUpdateOperationsInput<Sex>");
    assert_eq!(
        op(&list_of(FieldType::Decimal, Optionality::Required), true),
        "NullableArrayFieldUpdateOperationsInput<string | Decimal>"
    );
    assert!(FieldType::Object("User".to_string())
        .to_typescript_update_operation_input(false, false)
        .is_err());
    assert!(map_of(FieldType::I32).to_typescript_update_operation_input(false, false).is_err());
    assert_eq!(
        FieldType::String.to_typescript_update_input_type(true, false).unwrap(),
        "NullableStringFieldUpdateOperationsInput | string | null"
    );
    assert_eq!(
        sex().to_typescript_update_input_type(false, true).unwrap(),
        "EnumFieldUpdateOperationsInput<Sex> | Sex"
    );
    assert!(FieldType::Object("User".to_string())
        .to_typescript_update_input_type(false, false)
        .is_err());
}

#[test]
fn a_new_graph_builder_holds_nothing() {
    let builder = GraphBuilder::new();
    assert!(builder.enums.is_empty());
    assert!(builder.model_builders.is_empty());
    assert!(!builder.reset_database);
    assert!(builder.clone_enums().is_empty());
}

#[test]
fn an_enum_is_held_under_its_name() {
    let definition = |name: &str, choices: &[&str]| EnumDefinition {
        name: name.to_string(),
        choices: choices.iter().map(|c| c.to_string()).collect(),
    };
    let mut builder = GraphBuilder::new();
    builder.enumeration(definition("Sex", &["MALE", "FEMALE"]));
    builder.enumeration(definition("Role", &["ADMIN"]));
    assert_eq!(builder.enums.len(), 2);
    // An enum of a name that is there takes the place of the one before.
    builder.enumeration(definition("Sex", &["M", "F", "X"]));
    assert_eq!(builder.enums.len(), 2);
    let names: Vec<&str> = builder.enums.iter().map(|e| e.name()).collect();
    assert_eq!(names, vec!["Sex", "Role"]);
    assert_eq!(builder.enums[0].choices, vec!["M", "F", "X"]);
    assert_eq!(builder.enums[1].choices, vec!["ADMIN"]);
    assert!(builder.model_builders.is_empty());
    assert!(!builder.reset_database);
    let copy = builder.clone_enums();
    assert_eq!(copy.len(), 2);
    assert_eq!(copy[0].name, "Sex");
    assert_eq!(copy[0].choices, vec!["M", "F", "X"]);
    assert_eq!(copy[1].clone().name, "Role");
}

#[test]
fn models_are_held_in_the_order_they_were_added() {
    let mut builder = GraphBuilder::new();
    builder.model(ModelBuilder::new("User".to_string()));
    builder.model(ModelBuilder::new("Post".to_string()));
    let names: Vec<&str> = builder.model_builders.iter().map(|m| m.name.as_str()).collect();
    assert_eq!(names, vec!["User", "Post"]);
    assert!(builder.enums.is_empty());
    assert!(!builder.reset_database);
}

#[test]
fn a_reset_of_the_database_is_asked_for_once_and_for_all() {
    let mut builder = GraphBuilder::new();
    builder.model(ModelBuilder::new("User".to_string()));
    builder.reset_database();
    assert!(builder.reset_database);
    builder.reset_database();
    assert!(builder.reset_database);
    assert_eq!(builder.model_builders.len(), 1);
    assert!(builder.enums.is_empty());
}

#[test]
fn configurations_are_copied_whole() {
    let server = ServerConf {
        bind: ("0.0.0.0".to_string(), 5050),
        jwt_secret: Some("SECRET-REDACTED".to_string()),
        path_prefix: None,
    };
    let copy = server.clone();
    assert_eq!(copy.bind, ("0.0.0.0".to_string(), 5050));
    assert_eq!(copy.jwt_secret, server.jwt_secret);
    assert_eq!(copy.path_prefix, None);
    let entity = EntityGeneratorConf {
        name: Some("entities".to_string()),
        provider: Environment::Rust,
        dest: "src/entities".to_string(),
    };
    let copy = entity.clone();
    assert_eq!(copy.name.as_deref(), Some("entities"));
    assert_eq!(copy.provider, Environment::Rust);
    assert_eq!(copy.dest, "src/entities");
    let client = ClientGeneratorConf {
        name: None,
        provider: ClientLanguage::TypeScript,
        dest: "client".to_string(),
        package: true,
        host: "http://localhost:5050".to_string(),
        object_name: Some("api".to_string()),
    };
    let copy = client.clone();
    assert_eq!(copy.name, None);
    assert_eq!(copy.provider, ClientLanguage::TypeScript);
    assert_eq!(copy.dest, "client");
    assert!(copy.package);
    assert_eq!(copy.host, "http://localhost:5050");
    assert_eq!(copy.object_name.as_deref(), Some("api"));
}
