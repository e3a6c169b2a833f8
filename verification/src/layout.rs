use vstd::prelude::*;
use vstd::string::StringExecFns;

verus! {

/// The station's directory under the home directory.
pub const LOCAL_DIR: &'static str = ".vote42.rs/";

/// The directory, under the station's directory, that holds the SSH key.
pub const SSH_LOCAL_DIR: &'static str = "ssh/";

/// The name of the configuration file.
pub const CONFIG: &'static str = "config.json";

/// The file, under the station's directory, that names the pre-server.
pub const PRE_SERVER_HOSTS_FILE: &'static str = "hosts/pre_server.json";

/// The directories to make under the home directory, in order: the
/// station's directory, then its SSH directory.
pub fn local_dir_names() -> (res: Vec<String>)
    ensures
        res@.len() == 2,
        res@[0]@ == LOCAL_DIR@,
        res@[1]@ == LOCAL_DIR@ + SSH_LOCAL_DIR@,
{
    let mut ssh_dir = LOCAL_DIR.to_string();
    ssh_dir.append(SSH_LOCAL_DIR);
    let mut res: Vec<String> = Vec::new();
    res.push(LOCAL_DIR.to_string());
    res.push(ssh_dir);
    res
}

/// Where the vote template lives on the pre-server and where its copy goes
/// on the station.
pub struct TemplatePaths {
    /// The station directory of the pre-server user: `/home/<user>/.vote42.rs/`.
    pub host_local_path: String,
    /// The template on the pre-server: `<host_local_path>srv/<template>`.
    pub template_remote_path: String,
    /// The local copy: `<local_path><template>`.
    pub template_local_path: String,
}

/// The paths for fetching the template named `template_name` as the
/// pre-server user `username`, into the station directory `local_path`.
pub fn template_paths(local_path: &str, username: &str, template_name: &str) -> (res: TemplatePaths)
    ensures
        res.host_local_path@ == "/home/"@ + username@ + "/.vote42.rs/"@,
        res.template_remote_path@ == res.host_local_path@ + "srv/"@ + template_name@,
        res.template_local_path@ == local_path@ + template_name@,
{
    let mut host_local_path = "/home/".to_string();
    host_local_path.append(username);
    host_local_path.append("/.vote42.rs/");
    let mut template_remote_path = host_local_path.clone();
    template_remote_path.append("srv/");
    template_remote_path.append(template_name);
    let mut template_local_path = local_path.to_string();
    template_local_path.append(template_name);
    TemplatePaths { host_local_path, template_remote_path, template_local_path }
}

} // verus!
