use goose_plugins::model::PluginTaskType;

#[test]
fn directory_suffix_of_each_category() {
    assert_eq!(PluginTaskType::Text.as_directory_suffix(), "text");
    assert_eq!(PluginTaskType::Tts.as_directory_suffix(), "tts");
}
