//! Deployment-plugin selection and the argument vectors handed to the
//! external plugin.

use outbound_egress::deploy::{
    select_deployment_plugin, DeployCommand, LoginCommand, PluginSelection, PluginSelectionError,
    PluginVarState,
};

#[test]
fn explicit_plugin_is_used_verbatim() {
    let r = select_deployment_plugin(PluginVarState::Present("mycloud".to_string()));
    assert_eq!(
        r,
        Ok(PluginSelection { plugin: "mycloud".to_string(), defaulted: false })
    );
}

#[test]
fn absent_variable_falls_back_with_a_warning() {
    let r = select_deployment_plugin(PluginVarState::Absent).unwrap();
    assert_eq!(r.plugin, "cloud");
    assert!(r.defaulted);
}

#[test]
fn unreadable_variable_is_an_error() {
    assert_eq!(
        select_deployment_plugin(PluginVarState::Unreadable),
        Err(PluginSelectionError::VarUnreadable)
    );
}

#[test]
fn deploy_invocation_shape() {
    let cmd = DeployCommand { args: vec!["--app".to_string(), "x".to_string()] };
    let v = cmd.plugin_invocation("cloud".to_string());
    assert_eq!(v, vec!["cloud", "deploy", "--app", "x"]);
}

#[test]
fn login_invocation_shape() {
    let cmd = LoginCommand { args: vec!["--env".to_string(), "prod".to_string()] };
    let v = cmd.plugin_invocation("cloud".to_string());
    assert_eq!(v, vec!["cloud", "login", "--env", "prod"]);
}
