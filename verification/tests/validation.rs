use textile_cut::app_error::{AppError, DEFAULT_ERROR_CODE};
use textile_cut::cutting_table::{CuttingTable, CuttingTableCreate};
use textile_cut::cutting_table_service::{
    trim_create_cutting_table_create_fields, trim_create_cutting_table_fields,
    verify_create_cutting_table_create_fields, verify_create_cutting_table_fields,
};
use textile_cut::fabric::{Fabric, FabricCreate};
use textile_cut::fabric_service::{
    trim_create_fabric_create_fields, trim_create_fabric_fields,
    verify_create_fabric_create_fields, verify_create_fabric_fields,
};
use textile_cut::fabric_cut::{FabricCutPiece, PieceStatus, Vertex, get_optional_pos_x,
    get_optional_pos_y};
use textile_cut::file_service::{FileError, map_file_error_to_app_error};
use textile_cut::utils::get_optional_from_boolean_and_value;

#[test]
fn app_error_new_test() {
    let e = AppError::new(DEFAULT_ERROR_CODE, "mensagem");
    assert_eq!(e.status, 1);
    assert_eq!(e.message, "mensagem");
}

#[test]
fn map_file_error_to_app_error_test() {
    let open = map_file_error_to_app_error(FileError::FailedToOpenFile {
        path: "a/b.txt".to_string(),
    });
    assert_eq!(open.status, DEFAULT_ERROR_CODE);
    assert_eq!(open.message, "Falha ao abrir localizado em: a/b.txt");

    let read = map_file_error_to_app_error(FileError::FailedToReadFile {
        path: "c.txt".to_string(),
    });
    assert_eq!(read.message, "Falha ao ler conteúdo arquivo localizado em: c.txt");

    let write = map_file_error_to_app_error(FileError::FailedToWriteFile {
        path: "d.txt".to_string(),
    });
    assert_eq!(write.message, "Falha ao escrever em arquivo localizado em: d.txt");
}

#[test]
fn trim_fabric_fields_test() {
    let trimmed = trim_create_fabric_create_fields(FabricCreate {
        name: "  linen  ".to_string(),
        manufacturer: " mill ".to_string(),
        width: 140,
        code: " A-1 ".to_string(),
    });
    assert_eq!(trimmed.name, "linen");
    assert_eq!(trimmed.manufacturer, "mill");
    assert_eq!(trimmed.code, "A-1");
    assert_eq!(trimmed.width, 140);

    let full = trim_create_fabric_fields(Fabric {
        id: 3,
        name: "\tcotton\n".to_string(),
        manufacturer: "m".to_string(),
        width: 90,
        code: "c".to_string(),
    });
    assert_eq!(full.name, "cotton");
    assert_eq!(full.id, 3);
}

#[test]
fn verify_fabric_fields_test() {
    let ok = FabricCreate {
        name: "linen".to_string(),
        manufacturer: "mill".to_string(),
        width: 140,
        code: "A".to_string(),
    };
    assert!(verify_create_fabric_create_fields(&ok).is_ok());

    let blank_name = FabricCreate { name: "   ".to_string(), ..ok.clone() };
    let err = verify_create_fabric_create_fields(&blank_name).unwrap_err();
    assert_eq!(err.message, "Campo obrigatório: nome");

    let zero_width = FabricCreate { width: 0, ..ok.clone() };
    let err = verify_create_fabric_create_fields(&zero_width).unwrap_err();
    assert_eq!(err.message, "Campo deve ser maior que zero: largura");

    let full_ok = Fabric {
        id: 1,
        name: "n".to_string(),
        manufacturer: "m".to_string(),
        width: 1,
        code: "c".to_string(),
    };
    assert!(verify_create_fabric_fields(&full_ok).is_ok());
    let full_bad = Fabric { width: -2, ..full_ok.clone() };
    assert!(verify_create_fabric_fields(&full_bad).is_err());
}

#[test]
fn trim_cutting_table_fields_test() {
    let trimmed = trim_create_cutting_table_create_fields(CuttingTableCreate {
        name: "  table  ".to_string(),
        width: 200,
        length: 300,
    });
    assert_eq!(trimmed.name, "table");
    assert_eq!(trimmed.width, 200);
    assert_eq!(trimmed.length, 300);

    let full = trim_create_cutting_table_fields(CuttingTable {
        id: 7,
        name: " t ".to_string(),
        width: 10,
        length: 20,
    });
    assert_eq!(full.name, "t");
    assert_eq!(full.id, 7);
}

#[test]
fn verify_cutting_table_fields_test() {
    let ok = CuttingTableCreate { name: "table".to_string(), width: 200, length: 300 };
    assert!(verify_create_cutting_table_create_fields(&ok).is_ok());

    let blank = CuttingTableCreate { name: " ".to_string(), ..ok.clone() };
    let err = verify_create_cutting_table_create_fields(&blank).unwrap_err();
    assert_eq!(err.message, "Campo obrigatório: nome");

    let zero_width = CuttingTableCreate { width: 0, ..ok.clone() };
    let err = verify_create_cutting_table_create_fields(&zero_width).unwrap_err();
    assert_eq!(err.message, "Campo deve ser maior que zero: largura");

    let zero_length = CuttingTableCreate { length: -1, ..ok.clone() };
    let err = verify_create_cutting_table_create_fields(&zero_length).unwrap_err();
    assert_eq!(err.message, "Campo deve ser maior que zero: comprimento");

    let full_ok = CuttingTable { id: 1, name: "n".to_string(), width: 5, length: 5 };
    assert!(verify_create_cutting_table_fields(&full_ok).is_ok());
    let full_bad = CuttingTable { length: 0, ..full_ok.clone() };
    assert!(verify_create_cutting_table_fields(&full_bad).is_err());
}

#[test]
fn get_optional_from_boolean_and_value_test() {
    assert_eq!(get_optional_from_boolean_and_value(true, 42), Some(42));
    assert_eq!(get_optional_from_boolean_and_value(false, 42), None);
    assert_eq!(get_optional_from_boolean_and_value(true, "x"), Some("x"));
}

#[test]
fn get_optional_pos_test() {
    let fit = FabricCutPiece {
        id: 1,
        width: 10,
        length: 10,
        status: PieceStatus::Fit { position: Vertex { pos_x: 3, pos_y: 4 } },
    };
    assert_eq!(get_optional_pos_x(&fit), Some(3));
    assert_eq!(get_optional_pos_y(&fit), Some(4));

    let missing = FabricCutPiece {
        id: 2,
        width: 10,
        length: 10,
        status: PieceStatus::DidNotFit,
    };
    assert_eq!(get_optional_pos_x(&missing), None);
    assert_eq!(get_optional_pos_y(&missing), None);

    let area = FabricCutPiece {
        id: 3,
        width: 10,
        length: 10,
        status: PieceStatus::ProhibitedArea { position: Vertex { pos_x: 7, pos_y: 8 } },
    };
    assert_eq!(get_optional_pos_x(&area), Some(7));
    assert_eq!(get_optional_pos_y(&area), Some(8));

    let showcase = FabricCutPiece {
        id: 4,
        width: 10,
        length: 10,
        status: PieceStatus::Showcase {
            position_list: vec![Vertex { pos_x: 1, pos_y: 2 }],
        },
    };
    assert_eq!(get_optional_pos_x(&showcase), None);
    assert_eq!(get_optional_pos_y(&showcase), None);
}
