use optee_utee::extension::LoadablePlugin;
use optee_utee::{ErrorKind, Uuid};
use optee_utee::extension::LoadablePluginCommand;
use std::io::Write;

fn plugin() -> LoadablePlugin {
    LoadablePlugin::new(&Uuid::parse_str("7dd54ee6-a705-4e4d-8b6b-aa5024dfcd10").unwrap())
}

fn bytes(seed: u8, len: usize) -> Vec<u8> {
    (0..len).map(|i| b'a' + ((i as u8).wrapping_add(seed)) % 26).collect()
}

/// What the plugin in the normal world does with the shared buffer: checks
/// the request, writes its response at the start, and reports its length.
fn plugin_answers(shared: &[u8], expected: &[u8], response: &[u8]) -> (Vec<u8>, usize) {
    assert_eq!(shared, expected);
    assert!(response.len() <= shared.len());
    let mut buf = shared.to_vec();
    buf[..response.len()].copy_from_slice(response);
    (buf, response.len())
}

#[test]
fn test_invoke() {
    let plugin = plugin();
    const REQUEST_LEN: usize = 32;
    for (seed, response_len) in [(1u8, REQUEST_LEN / 2), (2u8, REQUEST_LEN)] {
        let request = bytes(seed, REQUEST_LEN);
        let exp_response = bytes(seed + 7, response_len);
        let cmd = plugin.invoke(seed as u32, 3, &request);
        let shared = cmd.request_buffer();
        let (buf, outlen) = plugin_answers(&shared, &request, &exp_response);
        let response = cmd.call(0, buf, outlen).unwrap();
        assert_eq!(response, exp_response);
    }
}

#[test]
fn test_invoke_with_capacity() {
    let plugin = plugin();
    const RESPONSE_LEN: usize = 32;
    let cases = [(2 * RESPONSE_LEN, RESPONSE_LEN), (RESPONSE_LEN, RESPONSE_LEN), (RESPONSE_LEN / 2, RESPONSE_LEN)];
    for (i, (request_len, response_len)) in cases.iter().enumerate() {
        let mut request = bytes(i as u8, *request_len);
        let exp_response = bytes(i as u8 + 11, *response_len);
        let cmd = plugin.invoke_with_capacity(1, 2, exp_response.len()).chain_write_body(&request);
        let shared = cmd.request_buffer();
        if request.len() < exp_response.len() {
            request.resize(exp_response.len(), 0);
        }
        let (buf, outlen) = plugin_answers(&shared, &request, &exp_response);
        let response = cmd.call(0, buf, outlen).unwrap();
        assert_eq!(response, exp_response);
    }
}

#[test]
fn test_invoke_with_no_data() {
    let plugin = plugin();
    const OUTPUT_LEN: usize = 50;
    let exp_response = bytes(5, OUTPUT_LEN);
    let exp_request = vec![0u8; OUTPUT_LEN];
    let cmd = plugin.invoke_with_capacity(4, 5, OUTPUT_LEN);
    let shared = cmd.request_buffer();
    let (buf, outlen) = plugin_answers(&shared, &exp_request, &exp_response);
    let response = cmd.call(0, buf, outlen).unwrap();
    assert_eq!(response, exp_response);
}

#[test]
fn write_body_appends() {
    let plugin = plugin();
    let mut cmd = plugin.invoke_with_capacity(1, 2, 8);
    cmd.write_body(&[1, 2]);
    cmd.write_body(&[3]);
    assert_eq!(cmd.request_buffer(), vec![1, 2, 3, 0, 0, 0, 0, 0]);
    assert_eq!(cmd.cmd_id(), 1);
    assert_eq!(cmd.sub_cmd_id(), 2);
    assert_eq!(cmd.uuid().to_string(), "7dd54ee6-a705-4e4d-8b6b-aa5024dfcd10");
}

#[test]
fn call_errors() {
    let plugin = plugin();
    let cmd = plugin.invoke(1, 2, &[1, 2, 3]);
    let err = cmd.call(0, vec![0, 0, 0], 4).err().unwrap();
    assert_eq!(err.kind(), ErrorKind::ShortBuffer);
    let cmd = plugin.invoke(1, 2, &[1, 2, 3]);
    let err = cmd.call(0xFFFF_000A, vec![0, 0, 0], 0).err().unwrap();
    assert_eq!(err.kind(), ErrorKind::NotSupported);
    let cmd = plugin.invoke(1, 2, &[]);
    assert_eq!(cmd.call(0, vec![], 0).unwrap(), Vec::<u8>::new());
}

struct Wrapper<'b>(&'b mut LoadablePluginCommand);

impl<'b> std::io::Write for Wrapper<'b> {
    fn write(&mut self, buf: &[u8]) -> std::io::Result<usize> {
        self.0.write_body(buf);
        Ok(buf.len())
    }
    fn flush(&mut self) -> std::io::Result<()> {
        Ok(())
    }
}

#[test]
fn test_invoke_with_writer() {
    let plugin = plugin();
    let test_data = br#"{"code":100,"message":"error"}"#;
    let mut exp_request = test_data.to_vec();
    let buffer_len = exp_request.len() * 2;
    let exp_response = bytes(9, buffer_len);
    let mut plugin_cmd = plugin.invoke_with_capacity(7, 8, buffer_len);
    exp_request.resize(exp_response.len(), 0);
    Wrapper(&mut plugin_cmd).write_all(test_data).unwrap();
    let shared = plugin_cmd.request_buffer();
    let (buf, outlen) = plugin_answers(&shared, &exp_request, &exp_response);
    let response = plugin_cmd.call(0, buf, outlen).unwrap();
    assert_eq!(response, exp_response);
}
