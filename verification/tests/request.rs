use getcmd::request::{build_request, reply_or_empty};

#[test]
fn request_goes_to_the_chat_completions() {
    let request = build_request("p", "k");
    assert_eq!(request.method, "POST");
    assert_eq!(request.url, "https://api.openai.com/v1/chat/completions");
}

#[test]
fn request_bears_the_key() {
    let request = build_request("p", "sk-123");
    assert_eq!(request.authorization, "Bearer sk-123");
    assert_eq!(request.content_type, "application/json");
}

#[test]
fn body_names_the_model_and_holds_the_prompt() {
    let request = build_request("list files", "k");
    assert_eq!(
        request.body,
        "{\"messages\":[{\"content\":\"list files\",\"role\":\"user\"}],\"model\":\"gpt-4o-mini\"}"
    );
}

#[test]
fn body_escapes_the_prompt() {
    let request = build_request("say \"hi\"\n", "k");
    assert_eq!(
        request.body,
        "{\"messages\":[{\"content\":\"say \\\"hi\\\"\\n\",\"role\":\"user\"}],\"model\":\"gpt-4o-mini\"}"
    );
}

#[test]
fn body_reads_back_as_json_with_the_prompt() {
    let prompt = "find \"a b\" in `x`\\ and\ttabs, ünï©ode";
    let request = build_request(prompt, "k");
    let body: serde_json::Value = serde_json::from_str(&request.body).unwrap();
    assert_eq!(body.get("model").unwrap().as_str(), Some("gpt-4o-mini"));
    let messages = body.get("messages").unwrap().as_array().unwrap();
    assert_eq!(messages.len(), 1);
    assert_eq!(messages[0].get("role").unwrap().as_str(), Some("user"));
    assert_eq!(messages[0].get("content").unwrap().as_str(), Some(prompt));
    assert_eq!(body.to_string(), request.body);
}

#[test]
fn reply_that_came_is_kept() {
    assert_eq!(reply_or_empty(Some("{\"choices\":[]}".to_string())), "{\"choices\":[]}");
    assert_eq!(reply_or_empty(Some(String::new())), "");
}

#[test]
fn reply_that_never_came_is_the_empty_object() {
    assert_eq!(reply_or_empty(None), "{}");
}
