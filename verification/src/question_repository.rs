//! Question sources.
//!
//! A [`QuestionRepository`] produces the ordered question sequence a session
//! is built from; the session takes it as a one-time snapshot at
//! construction. [`InMemoryQuestionRepository`] supplies the built-in bank of
//! Kubernetes practice questions; [`FileQuestionRepository`] is the extension
//! point for a file-backed source, whose loading lives outside the verified
//! core.

use crate::models::Question;
use vstd::prelude::*;

verus! {

/// A source of the ordered question sequence. The session validates the
/// sequence itself (non-empty, positive time limits), so implementations
/// promise nothing here.
pub trait QuestionRepository {
    /// The ordered sequence of questions this source supplies.
    fn get_questions(&self) -> (r: Vec<Question>);
}

/// The built-in bank of Kubernetes practice questions.
pub struct InMemoryQuestionRepository;

/// Builds a three-hint list from the given texts.
fn three_hints(a: &str, b: &str, c: &str) -> (r: Vec<String>)
    ensures
        r@.len() == 3,
        r@[0]@ == a@,
        r@[1]@ == b@,
        r@[2]@ == c@,
{
    let mut v: Vec<String> = Vec::new();
    v.push(a.to_owned());
    v.push(b.to_owned());
    v.push(c.to_owned());
    v
}

impl QuestionRepository for InMemoryQuestionRepository {
    /// The fixed bank: five questions with ids 1 through 5, three hints each,
    /// and per-question time limits of 60, 120, 90, 60 and 75 seconds.
    fn get_questions(&self) -> (r: Vec<Question>)
        ensures
            r@.len() == 5,
            forall|i: int| 0 <= i < 5 ==> (#[trigger] r@[i]).id == i + 1,
            forall|i: int| 0 <= i < 5 ==> (#[trigger] r@[i]).hints@.len() == 3,
            r@[0].time_limit_secs == 60,
            r@[1].time_limit_secs == 120,
            r@[2].time_limit_secs == 90,
            r@[3].time_limit_secs == 60,
            r@[4].time_limit_secs == 75,
            r@[0].question@
                == "Create a Pod named 'nginx' using the nginx:1.14 image in the default namespace."@,
            r@[0].answer@ == "kubectl run nginx --image=nginx:1.14"@,
            r@[1].question@
                == "Create a deployment named 'web' with 3 replicas using the httpd:2.4 image and expose port 80."@,
            r@[1].answer@
                == "kubectl create deployment web --image=httpd:2.4 --replicas=3\nkubectl expose deployment web --port=80 --type=ClusterIP"@,
            r@[2].question@
                == "Set resource requests and limits for a pod: request 256Mi memory and 100m CPU, limit 512Mi memory and 200m CPU."@,
            r@[2].answer@
                == "resources:\n  requests:\n    memory: \"256Mi\"\n    cpu: \"100m\"\n  limits:\n    memory: \"512Mi\"\n    cpu: \"200m\""@,
            r@[3].question@
                == "Create a ConfigMap named 'app-config' with key 'database.url' and value 'postgres://db:5432'."@,
            r@[3].answer@
                == "kubectl create configmap app-config --from-literal=database.url=postgres://db:5432"@,
            r@[4].question@
                == "Create a Secret named 'db-secret' with username 'admin' and password 'secret123'."@,
            r@[4].answer@
                == "kubectl create secret generic db-secret --from-literal=username=admin --from-literal=password=secret123"@,
    {
        let mut qs: Vec<Question> = Vec::new();
        qs.push(
            Question {
                id: 1,
                question:
                    "Create a Pod named 'nginx' using the nginx:1.14 image in the default namespace.".to_owned(),
                hints: three_hints(
                    "Use: kubectl run <pod-name> --image=<image>",
                    "Full command: kubectl run nginx --image=nginx:1.14",
                    "Reference: https://kubernetes.io/docs/reference/kubectl/generated/kubectl-run/",
                ),
                answer: "kubectl run nginx --image=nginx:1.14".to_owned(),
                time_limit_secs: 60,
            },
        );
        qs.push(
            Question {
                id: 2,
                question:
                    "Create a deployment named 'web' with 3 replicas using the httpd:2.4 image and expose port 80.".to_owned(),
                hints: three_hints(
                    "Use kubectl create deployment, then kubectl set image, and kubectl expose",
                    "Or use: kubectl create deployment web --image=httpd:2.4 --replicas=3",
                    "Then: kubectl expose deployment web --port=80 --type=ClusterIP",
                ),
                answer:
                    "kubectl create deployment web --image=httpd:2.4 --replicas=3\nkubectl expose deployment web --port=80 --type=ClusterIP".to_owned(),
                time_limit_secs: 120,
            },
        );
        qs.push(
            Question {
                id: 3,
                question:
                    "Set resource requests and limits for a pod: request 256Mi memory and 100m CPU, limit 512Mi memory and 200m CPU.".to_owned(),
                hints: three_hints(
                    "Use resources.requests and resources.limits in the pod spec",
                    "Memory is specified in Mi, CPU in m (millicores)",
                    "Reference: https://kubernetes.io/docs/concepts/configuration/manage-resources-containers/",
                ),
                answer:
                    "resources:\n  requests:\n    memory: \"256Mi\"\n    cpu: \"100m\"\n  limits:\n    memory: \"512Mi\"\n    cpu: \"200m\"".to_owned(),
                time_limit_secs: 90,
            },
        );
        qs.push(
            Question {
                id: 4,
                question:
                    "Create a ConfigMap named 'app-config' with key 'database.url' and value 'postgres://db:5432'.".to_owned(),
                hints: three_hints(
                    "Use: kubectl create configmap <name> --from-literal=<key>=<value>",
                    "Full command: kubectl create configmap app-config --from-literal=database.url=postgres://db:5432",
                    "Reference: https://kubernetes.io/docs/concepts/configuration/configmap/",
                ),
                answer:
                    "kubectl create configmap app-config --from-literal=database.url=postgres://db:5432".to_owned(),
                time_limit_secs: 60,
            },
        );
        qs.push(
            Question {
                id: 5,
                question:
                    "Create a Secret named 'db-secret' with username 'admin' and password 'secret123'.".to_owned(),
                hints: three_hints(
                    "Use: kubectl create secret generic <name> --from-literal=<key>=<value>",
                    "Full command: kubectl create secret generic db-secret --from-literal=username=admin --from-literal=password=secret123",
                    "Reference: https://kubernetes.io/docs/concepts/configuration/secret/",
                ),
                answer:
                    "kubectl create secret generic db-secret --from-literal=username=admin --from-literal=password=secret123".to_owned(),
                time_limit_secs: 75,
            },
        );
        qs
    }
}

/// A file-backed question source: the extension point for loading a bank
/// from disk. Reading and parsing the file are I/O and live outside the
/// verified core, so this source supplies no questions yet; a session built
/// from it reports an empty bank.
pub struct FileQuestionRepository {
    pub file_path: String,
}

impl FileQuestionRepository {
    /// Remembers the path the questions would be loaded from.
    pub fn new(file_path: String) -> (r: Self)
        ensures
            r.file_path == file_path,
    {
        FileQuestionRepository { file_path }
    }
}

impl QuestionRepository for FileQuestionRepository {
    /// No questions until a loader exists.
    fn get_questions(&self) -> (r: Vec<Question>)
        ensures
            r@.len() == 0,
    {
        Vec::new()
    }
}

} // verus!
