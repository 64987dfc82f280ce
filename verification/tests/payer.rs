use corvopay::domain::value_objects::customer::document::{Document, DocumentType};
use corvopay::domain::value_objects::customer::email::Email;
use corvopay::domain::value_objects::customer::name::Name;
use corvopay::domain::value_objects::customer::payer::Payer;

const EMAIL_VALIDO: &str = "joao@exemplo.com";
const NOME_VALIDO: &str = "João Silva";
const CPF_VALIDO: &str = "52998224725";
const CNPJ_VALIDO: &str = "11222333000181";

fn email() -> Email {
    Email::new(EMAIL_VALIDO).unwrap()
}

fn nome() -> Name {
    Name::new(NOME_VALIDO).unwrap()
}

fn documento_cpf() -> Document {
    Document::new(CPF_VALIDO, DocumentType::Cpf).unwrap()
}

#[test]
fn should_create_payer_with_valid_cpf_via_new() {
    let result = Payer::new(EMAIL_VALIDO, NOME_VALIDO, CPF_VALIDO, DocumentType::Cpf);
    assert!(result.is_ok());
}

#[test]
fn should_create_payer_with_valid_cnpj_via_new() {
    let result = Payer::new(EMAIL_VALIDO, NOME_VALIDO, CNPJ_VALIDO, DocumentType::Cnpj);
    assert!(result.is_ok());
}

#[test]
fn should_create_payer_via_from_parts() {
    let payer = Payer::from_parts(email(), nome(), documento_cpf());
    assert_eq!(payer.email, email());
}

#[test]
fn should_store_correct_email_after_creation() {
    let payer = Payer::new(EMAIL_VALIDO, NOME_VALIDO, CPF_VALIDO, DocumentType::Cpf).unwrap();
    assert_eq!(payer.email.as_str(), EMAIL_VALIDO);
}

#[test]
fn should_store_correct_name_after_creation() {
    let payer = Payer::new(EMAIL_VALIDO, NOME_VALIDO, CPF_VALIDO, DocumentType::Cpf).unwrap();
    assert_eq!(payer.name.as_str(), NOME_VALIDO);
}

#[test]
fn should_store_correct_document_number_after_creation() {
    let payer = Payer::new(EMAIL_VALIDO, NOME_VALIDO, CPF_VALIDO, DocumentType::Cpf).unwrap();
    assert_eq!(payer.document.number(), CPF_VALIDO);
}

#[test]
fn should_store_correct_document_type_after_creation() {
    let payer = Payer::new(EMAIL_VALIDO, NOME_VALIDO, CPF_VALIDO, DocumentType::Cpf).unwrap();
    assert_eq!(payer.document.document_type(), &DocumentType::Cpf);
}

#[test]
fn should_fail_when_email_is_invalid() {
    let result = Payer::new("nao-eh-email", NOME_VALIDO, CPF_VALIDO, DocumentType::Cpf);
    assert!(result.is_err());
}

#[test]
fn should_fail_when_name_is_too_short() {
    let result = Payer::new(EMAIL_VALIDO, "Jo", CPF_VALIDO, DocumentType::Cpf);
    assert!(result.is_err());
}

#[test]
fn should_fail_when_document_number_is_invalid() {
    let result = Payer::new(EMAIL_VALIDO, NOME_VALIDO, "00000000000", DocumentType::Cpf);
    assert!(result.is_err());
}

#[test]
fn should_fail_when_document_type_does_not_match_number() {
    let result = Payer::new(EMAIL_VALIDO, NOME_VALIDO, CPF_VALIDO, DocumentType::Cnpj);
    assert!(result.is_err());
}

#[test]
fn should_produce_equal_payers_from_new_and_from_parts() {
    let via_new = Payer::new(EMAIL_VALIDO, NOME_VALIDO, CPF_VALIDO, DocumentType::Cpf).unwrap();
    let via_parts = Payer::from_parts(email(), nome(), documento_cpf());
    assert_eq!(via_new, via_parts);
}

#[test]
fn should_normalize_email_to_lowercase_during_creation() {
    let payer = Payer::new("JOAO@EXEMPLO.COM", NOME_VALIDO, CPF_VALIDO, DocumentType::Cpf).unwrap();
    assert_eq!(payer.email.as_str(), "joao@exemplo.com");
}

#[test]
fn should_trim_name_whitespace_during_creation() {
    let payer = Payer::new(EMAIL_VALIDO, "  João Silva  ", CPF_VALIDO, DocumentType::Cpf).unwrap();
    assert_eq!(payer.name.as_str(), "João Silva");
}

#[test]
fn should_normalize_document_removing_mask_during_creation() {
    let payer = Payer::new(EMAIL_VALIDO, NOME_VALIDO, "529.982.247-25", DocumentType::Cpf).unwrap();
    assert_eq!(payer.document.number(), "52998224725");
}

#[test]
fn should_create_equal_payers_regardless_of_cpf_mask() {
    let com_mascara = Payer::new(EMAIL_VALIDO, NOME_VALIDO, "529.982.247-25", DocumentType::Cpf).unwrap();
    let sem_mascara = Payer::new(EMAIL_VALIDO, NOME_VALIDO, "52998224725", DocumentType::Cpf).unwrap();
    assert_eq!(com_mascara, sem_mascara);
}
