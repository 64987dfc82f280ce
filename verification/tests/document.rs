use corvopay::domain::value_objects::customer::document::{Document, DocumentType};

// Valid documents reused across the tests
const CPF_VALIDO: &str = "529.982.247-25";
const CPF_VALIDO_SEM_MASCARA: &str = "52998224725";
const CNPJ_VALIDO: &str = "11.222.333/0001-81";
const CNPJ_VALIDO_SEM_MASCARA: &str = "11222333000181";

#[test]
fn should_create_cpf_type_from_lowercase() {
    let result = DocumentType::new("cpf");
    assert!(result.is_ok());
}

#[test]
fn should_create_cnpj_type_from_lowercase() {
    let result = DocumentType::new("cnpj");
    assert!(result.is_ok());
}

#[test]
fn should_create_cpf_type_from_uppercase() {
    let result = DocumentType::new("CPF");
    assert!(result.is_ok());
}

#[test]
fn should_create_cnpj_type_from_uppercase() {
    let result = DocumentType::new("CNPJ");
    assert!(result.is_ok());
}

#[test]
fn should_create_cpf_type_from_mixed_case() {
    let result = DocumentType::new("Cpf");
    assert!(result.is_ok());
}

#[test]
fn should_create_document_type_ignoring_surrounding_whitespace() {
    let result = DocumentType::new("  cpf  ");
    assert!(result.is_ok());
}

#[test]
fn should_fail_when_value_is_unknown_string() {
    let result = DocumentType::new("rg");
    assert!(result.is_err());
}

#[test]
fn should_fail_when_value_is_empty_string() {
    let result = DocumentType::new("");
    assert!(result.is_err());
}

#[test]
fn should_return_cpf_variant_when_input_is_cpf() {
    let doc_type = DocumentType::new("cpf").unwrap();
    assert_eq!(doc_type, DocumentType::Cpf);
}

#[test]
fn should_return_cnpj_variant_when_input_is_cnpj() {
    let doc_type = DocumentType::new("cnpj").unwrap();
    assert_eq!(doc_type, DocumentType::Cnpj);
}

#[test]
fn should_create_document_with_valid_cpf_masked() {
    let result = Document::new(CPF_VALIDO, DocumentType::Cpf);
    assert!(result.is_ok());
}

#[test]
fn should_create_document_with_valid_cpf_unmasked() {
    let result = Document::new(CPF_VALIDO_SEM_MASCARA, DocumentType::Cpf);
    assert!(result.is_ok());
}

#[test]
fn should_create_document_with_valid_cnpj_masked() {
    let result = Document::new(CNPJ_VALIDO, DocumentType::Cnpj);
    assert!(result.is_ok());
}

#[test]
fn should_create_document_with_valid_cnpj_unmasked() {
    let result = Document::new(CNPJ_VALIDO_SEM_MASCARA, DocumentType::Cnpj);
    assert!(result.is_ok());
}

#[test]
fn should_normalize_cpf_removing_punctuation() {
    let doc = Document::new(CPF_VALIDO, DocumentType::Cpf).unwrap();
    assert_eq!(doc.number(), CPF_VALIDO_SEM_MASCARA);
}

#[test]
fn should_normalize_cnpj_removing_punctuation() {
    let doc = Document::new(CNPJ_VALIDO, DocumentType::Cnpj).unwrap();
    assert_eq!(doc.number(), CNPJ_VALIDO_SEM_MASCARA);
}

#[test]
fn should_return_correct_document_type_cpf() {
    let doc = Document::new(CPF_VALIDO, DocumentType::Cpf).unwrap();
    assert_eq!(doc.document_type(), &DocumentType::Cpf);
}

#[test]
fn should_return_correct_document_type_cnpj() {
    let doc = Document::new(CNPJ_VALIDO, DocumentType::Cnpj).unwrap();
    assert_eq!(doc.document_type(), &DocumentType::Cnpj);
}

#[test]
fn should_fail_when_cpf_has_wrong_length() {
    let result = Document::new("123.456.789", DocumentType::Cpf);
    assert!(result.is_err());
}

#[test]
fn should_fail_when_cpf_has_all_same_digits() {
    let result = Document::new("111.111.111-11", DocumentType::Cpf);
    assert!(result.is_err());
}

#[test]
fn should_fail_when_cpf_has_invalid_check_digits() {
    let result = Document::new("529.982.247-00", DocumentType::Cpf);
    assert!(result.is_err());
}

#[test]
fn should_fail_when_cnpj_has_wrong_length() {
    let result = Document::new("11.222.333/0001", DocumentType::Cnpj);
    assert!(result.is_err());
}

#[test]
fn should_fail_when_cnpj_has_all_same_digits() {
    let result = Document::new("11111111111111", DocumentType::Cnpj);
    assert!(result.is_err());
}

#[test]
fn should_fail_when_cnpj_has_invalid_check_digits() {
    let result = Document::new("11.222.333/0001-00", DocumentType::Cnpj);
    assert!(result.is_err());
}

#[test]
fn should_fail_when_cpf_number_is_passed_with_cnpj_type() {
    let result = Document::new(CPF_VALIDO, DocumentType::Cnpj);
    assert!(result.is_err());
}

#[test]
fn should_fail_when_cnpj_number_is_passed_with_cpf_type() {
    let result = Document::new(CNPJ_VALIDO, DocumentType::Cpf);
    assert!(result.is_err());
}

#[test]
fn should_fail_when_cpf_is_empty_string() {
    let result = Document::new("", DocumentType::Cpf);
    assert!(result.is_err());
}

#[test]
fn should_fail_when_cnpj_is_empty_string() {
    let result = Document::new("", DocumentType::Cnpj);
    assert!(result.is_err());
}

#[test]
fn should_accept_cpf_with_only_digits_no_mask() {
    let result = Document::new(CPF_VALIDO_SEM_MASCARA, DocumentType::Cpf);
    assert!(result.is_ok());
}

#[test]
fn should_accept_cnpj_with_only_digits_no_mask() {
    let result = Document::new(CNPJ_VALIDO_SEM_MASCARA, DocumentType::Cnpj);
    assert!(result.is_ok());
}

#[test]
fn should_fail_when_cpf_contains_only_letters() {
    let result = Document::new("abcdefghijk", DocumentType::Cpf);
    assert!(result.is_err());
}
