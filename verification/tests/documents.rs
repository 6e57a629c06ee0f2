use rfirma::configuration::Configuration;
use rfirma::memory::Memory;
use rfirma::documents::{
    remember_the_folder, starting_folder, where_it_lands,
    dropped_document, folder_it_came_from, next_to_the_original, real_path_of, DocumentInHand,
    Dropped, OpenedDocuments, PortalDocument,
};

fn the_identifier_crosses_and_the_reading_path_stays_behind() {
    let mut opened = OpenedDocuments::new();
    let handle = "/run/user/1000/doc/1e8b83b9/contrato.pdf";

    let id = opened.remember(PortalDocument::opened(handle));

    assert!(!id.contains("1e8b83b9"), "el identificador no lleva el del portal: {id}");
    assert!(!id.contains("contrato"), "ni el nombre: {id}");
    assert_eq!(
        opened.get(&id).map(|document| document.reading_path().to_owned()),
        Some(handle.to_owned()),
        "y el backend si sabe por donde leerlo"
    );
}

fn dropping_no_files_at_all_says_nothing() {
    let mut opened = OpenedDocuments::new();
    assert!(dropped_document(Dropped::Nothing, &mut opened).is_none());
}

fn outside_the_sandbox_the_folder_the_document_came_from_is_the_real_one() {
    let document = PortalDocument::opened("/home/quien/Contratos/contrato.pdf");

    assert_eq!(folder_it_came_from(&document).as_deref(), Some("/home/quien/Contratos"));
}

fn a_document_from_the_portal_leaves_no_folder_to_remember() {
    let document = PortalDocument::opened("/run/user/1000/doc/1e8b83b9/contrato.pdf");

    assert_eq!(folder_it_came_from(&document), None);
}

fn a_document_with_a_direct_path_offers_the_folder_it_is_in() {
    let document = PortalDocument::opened("/home/quien/Contratos/contrato.pdf");

    let folder = next_to_the_original(&document).expect("hay carpeta original");

    assert_eq!(folder.path(), "/home/quien/Contratos");
    assert_eq!(folder.name(), "Contratos");
}

fn a_document_from_the_portal_has_no_original_folder_to_offer() {
    let document = PortalDocument::opened("/run/user/1000/doc/1e8b83b9/contrato.pdf");

    assert!(next_to_the_original(&document).is_none());
}

fn outside_the_sandbox_the_real_path_of_the_document_is_told() {
    let document = PortalDocument::opened("/home/quien/Contratos/contrato.pdf");

    assert_eq!(real_path_of(&document).as_deref(), Some("/home/quien/Contratos/contrato.pdf"));
}

fn the_portal_handle_is_never_told_as_the_real_path() {
    let document = PortalDocument::opened("/run/user/1000/doc/1e8b83b9/contrato.pdf");

    assert_eq!(real_path_of(&document), None);
}

#[test]
fn documents_the_identifier_crosses_and_the_reading_path_stays_behind() {
    the_identifier_crosses_and_the_reading_path_stays_behind();
}

#[test]
fn tests_the_identifier_crosses_and_the_reading_path_stays_behind() {
    the_identifier_crosses_and_the_reading_path_stays_behind();
}

#[test]
fn documents_dropping_no_files_at_all_says_nothing() {
    dropping_no_files_at_all_says_nothing();
}

#[test]
fn tests_dropping_no_files_at_all_says_nothing() {
    dropping_no_files_at_all_says_nothing();
}

#[test]
fn documents_outside_the_sandbox_the_folder_the_document_came_from_is_the_real_one() {
    outside_the_sandbox_the_folder_the_document_came_from_is_the_real_one();
}

#[test]
fn tests_outside_the_sandbox_the_folder_the_document_came_from_is_the_real_one() {
    outside_the_sandbox_the_folder_the_document_came_from_is_the_real_one();
}

#[test]
fn documents_a_document_from_the_portal_leaves_no_folder_to_remember() {
    a_document_from_the_portal_leaves_no_folder_to_remember();
}

#[test]
fn tests_a_document_from_the_portal_leaves_no_folder_to_remember() {
    a_document_from_the_portal_leaves_no_folder_to_remember();
}

#[test]
fn documents_a_document_with_a_direct_path_offers_the_folder_it_is_in() {
    a_document_with_a_direct_path_offers_the_folder_it_is_in();
}

#[test]
fn tests_a_document_with_a_direct_path_offers_the_folder_it_is_in() {
    a_document_with_a_direct_path_offers_the_folder_it_is_in();
}

#[test]
fn documents_a_document_from_the_portal_has_no_original_folder_to_offer() {
    a_document_from_the_portal_has_no_original_folder_to_offer();
}

#[test]
fn tests_a_document_from_the_portal_has_no_original_folder_to_offer() {
    a_document_from_the_portal_has_no_original_folder_to_offer();
}

#[test]
fn documents_outside_the_sandbox_the_real_path_of_the_document_is_told() {
    outside_the_sandbox_the_real_path_of_the_document_is_told();
}

#[test]
fn tests_outside_the_sandbox_the_real_path_of_the_document_is_told() {
    outside_the_sandbox_the_real_path_of_the_document_is_told();
}

#[test]
fn documents_the_portal_handle_is_never_told_as_the_real_path() {
    the_portal_handle_is_never_told_as_the_real_path();
}

#[test]
fn tests_the_portal_handle_is_never_told_as_the_real_path() {
    the_portal_handle_is_never_told_as_the_real_path();
}

#[test]
fn an_identifier_of_no_session_puts_nothing_in_hand() {
    let opened = OpenedDocuments::new();

    let taken = DocumentInHand::taken(&opened, "00000000000000000000000000000000");

    assert!(taken.is_err());
}

#[test]
fn a_document_that_was_opened_is_put_in_hand_with_its_reading_path() {
    let mut opened = OpenedDocuments::new();
    let id = opened.remember(PortalDocument::opened("/home/quien/contrato.pdf"));

    let taken = DocumentInHand::taken(&opened, &id).expect("esta abierto");

    assert_eq!(taken.id(), id);
    assert_eq!(taken.reading_path(), "/home/quien/contrato.pdf");
    assert!(taken.is_remembered());
}

#[test]
fn a_document_of_a_site_is_in_hand_without_being_remembered() {
    let mut opened = OpenedDocuments::new();
    let id = opened.remember_unrecorded(PortalDocument::opened("/tmp/scratch.pdf"));

    let taken = DocumentInHand::taken(&opened, &id).expect("esta abierto");

    assert!(!taken.is_remembered());
}

#[test]
fn a_destination_that_cannot_be_written_is_told_as_such_and_without_a_name() {

    let document = PortalDocument::opened("/home/quien/contrato.pdf");
    let view = where_it_lands(
        &Configuration::default(),
        "/home/quien/Documentos",
        &document,
        |_| false,
        |_, _| panic!("no se busca nombre en una carpeta que no sirve"),
    );

    assert_eq!(view.folder, "Documentos");
    assert_eq!(view.name, None);
    assert!(!view.writable);
}

#[test]
fn a_destination_tells_the_name_the_document_would_get_and_no_path() {

    let document = PortalDocument::opened("/home/quien/contrato.pdf");
    let view = where_it_lands(
        &Configuration::default(),
        "/home/quien/Documentos",
        &document,
        |_| true,
        |_, _| Some("/home/quien/Documentos/contrato-firmado.pdf".to_owned()),
    );

    assert_eq!(view.name.as_deref(), Some("contrato-firmado.pdf"));
    assert!(view.writable);
}

#[test]
fn the_dialog_starts_where_the_last_document_came_from_if_it_is_still_there() {

    let mut memory = Memory::new();
    let configuration = Configuration::default();
    remember_the_folder(&mut memory, &configuration, &PortalDocument::opened("/home/quien/Contratos/contrato.pdf"));

    assert_eq!(
        starting_folder(&memory, &configuration, "/home/quien/Documentos", |_| true, |_| true).as_deref(),
        Some("/home/quien/Contratos")
    );
    assert_eq!(
        starting_folder(&memory, &configuration, "/home/quien/Documentos", |_| false, |_| true).as_deref(),
        Some("/home/quien/Documentos"),
        "una carpeta que ya no esta no es un punto de partida"
    );
    assert_eq!(starting_folder(&memory, &configuration, "/home/quien/Documentos", |_| false, |_| false), None);
}
