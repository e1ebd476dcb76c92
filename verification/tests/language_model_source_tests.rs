use aisdk::language_model_source::LanguageModelV3Source;

#[test]
fn test_initialization_url() {
    let id_val = "123";
    let url_val = "http://example.com";
    let title_val = "New URL";
    let provider_metadata = None;

    let new_url = LanguageModelV3Source::URl {
        id: String::from(id_val),
        url: String::from(url_val),
        title: Some(String::from(title_val)),
        provider_metadata,
    };

    match new_url {
        LanguageModelV3Source::URl {
            id,
            url,
            title,
            provider_metadata,
        } => {
            assert_eq!(id, id_val);
            assert_eq!(url, url_val);
            assert_eq!(title.unwrap_or_default(), title_val);
            assert!(provider_metadata.is_none());
        }
        _ => panic!("Expected URl variant"),
    }
}

#[test]
fn test_initialization_document() {
    let id_var = "123";
    let media_type_var = "application/pdf";
    let title_var = "New Doc";
    let file_name_var = "new_doc.pdf";
    let provider_metadata_var = None;

    let new_document = LanguageModelV3Source::Document {
        id: String::from(id_var),
        media_type: String::from(media_type_var),
        title: String::from(title_var),
        file_name: Some(String::from(file_name_var)),
        provider_metadata: provider_metadata_var,
    };

    match new_document {
        LanguageModelV3Source::Document {
            id,
            media_type,
            title,
            file_name,
            provider_metadata,
        } => {
            assert_eq!(id, id_var);
            assert_eq!(media_type, media_type_var);
            assert_eq!(title, title_var);
            assert_eq!(file_name.unwrap_or_default(), file_name_var);
            assert!(provider_metadata.is_none());
        }
        _ => panic!("Expected Document varient"),
    }
}
