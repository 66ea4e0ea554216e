use kiya::prompt::{data_folder, get_prompt, PROMPT_HEAD, PROMPT_MIDDLE, PROMPT_TAIL};

#[test]
fn prompt_names_user_and_info() {
    let info = vec!["Likes Chocolate".to_string(), "Has 2 grandkids".to_string(), "Can't drive".to_string()];
    let p = get_prompt("dorothy", &info);
    assert_eq!(p, format!("{}dorothy{}Likes Chocolate, Has 2 grandkids, Can't drive{}", PROMPT_HEAD, PROMPT_MIDDLE, PROMPT_TAIL));
    assert!(p.ends_with("Today you are helping: {User: dorothy, Info: Likes Chocolate, Has 2 grandkids, Can't drive}. Format your responses like below, Reply to Admin: {first response goes here}, Reply to User: {Second response goes here}"));
    assert!(p.starts_with("You are a chatbot designed to help older people"));
    assert!(p.contains("use the text \"Reply to Admin: No relevant information provided.\""));
}

#[test]
fn prompt_without_info() {
    let p = get_prompt("Derek", &Vec::new());
    assert!(p.ends_with("{User: Derek, Info: }. Format your responses like below, Reply to Admin: {first response goes here}, Reply to User: {Second response goes here}"));
}

#[test]
fn data_folder_per_system() {
    assert_eq!(data_folder("C:\\Users\\d\\Documents", "windows"), "C:\\Users\\d\\Documents\\openAI_sencit_test");
    assert_eq!(data_folder("/home/d/Documents", "linux"), "/home/d/Documents/openAI_sencit_test");
    assert_eq!(data_folder("/Users/d/Documents", "macos"), "/Users/d/Documents/openAI_sencit_test");
}
