//! The scripts that the browser window's page is asked to run.

use vstd::prelude::*;

verus! {

/// Goes one page back where the page's history holds more than one entry.
pub const GO_BACK_SCRIPT: &'static str = "if (window.history.length > 1) { window.history.back(); }";

/// Goes one page forward.
pub const GO_FORWARD_SCRIPT: &'static str = "window.history.forward();";

/// Loads the page again.
pub const REFRESH_SCRIPT: &'static str = "window.location.reload();";

/// Puts a bar with back, forward, reload and close buttons and the page's
/// address on top of the page, unless the page has one already.
pub const NAVIGATION_BAR_SCRIPT: &'static str = r#"
    (function() {
        // Check if navigation bar already exists
        if (document.getElementById('xbrowser-nav-bar')) {
            return;
        }

        // Create navigation bar HTML
        const navBarHTML = `
            <div id="xbrowser-nav-bar" style="
                position: fixed;
                top: 0;
                left: 0;
                right: 0;
                height: 50px;
                background: linear-gradient(to bottom, #f8f8f8, #e8e8e8);
                border-bottom: 1px solid #ccc;
                display: flex;
                align-items: center;
                padding: 8px 12px;
                gap: 8px;
                z-index: 999999;
                font-family: -apple-system, BlinkMacSystemFont, 'Segoe UI', Roboto, sans-serif;
                font-size: 14px;
                box-shadow: 0 2px 4px rgba(0,0,0,0.1);
            ">
                <button id="xbrowser-back" style="
                    width: 32px;
                    height: 32px;
                    border: none;
                    border-radius: 6px;
                    background: transparent;
                    cursor: pointer;
                    display: flex;
                    align-items: center;
                    justify-content: center;
                    color: #555;
                    transition: background 0.2s;
                " title="Go Back">
                    <svg width="16" height="16" viewBox="0 0 24 24" fill="currentColor">
                        <path d="M20 11H7.83l5.59-5.59L12 4l-8 8 8 8 1.41-1.41L7.83 13H20v-2z"/>
                    </svg>
                </button>
                
                <button id="xbrowser-forward" style="
                    width: 32px;
                    height: 32px;
                    border: none;
                    border-radius: 6px;
                    background: transparent;
                    cursor: pointer;
                    display: flex;
                    align-items: center;
                    justify-content: center;
                    color: #555;
                    transition: background 0.2s;
                " title="Go Forward">
                    <svg width="16" height="16" viewBox="0 0 24 24" fill="currentColor">
                        <path d="M12 4l-1.41 1.41L16.17 11H4v2h12.17l-5.58 5.59L12 20l8-8z"/>
                    </svg>
                </button>
                
                <button id="xbrowser-reload" style="
                    width: 32px;
                    height: 32px;
                    border: none;
                    border-radius: 6px;
                    background: transparent;
                    cursor: pointer;
                    display: flex;
                    align-items: center;
                    justify-content: center;
                    color: #555;
                    transition: background 0.2s;
                " title="Reload">
                    <svg width="16" height="16" viewBox="0 0 24 24" fill="currentColor">
                        <path d="M17.65 6.35C16.2 4.9 14.21 4 12 4c-4.42 0-7.99 3.58-7.99 8s3.57 8 7.99 8c3.73 0 6.84-2.55 7.73-6h-2.08c-.82 2.33-3.04 4-5.65 4-3.31 0-6-2.69-6-6s2.69-6 6-6c1.66 0 3.14.69 4.22 1.78L13 11h7V4l-2.35 2.35z"/>
                    </svg>
                </button>
                
                <div style="
                    flex: 1;
                    display: flex;
                    align-items: center;
                    background: #fff;
                    border: 1px solid #ddd;
                    border-radius: 8px;
                    padding: 0 12px;
                    height: 34px;
                    margin: 0 8px;
                ">
                    <div style="
                        display: flex;
                        align-items: center;
                        color: #4CAF50;
                        margin-right: 8px;
                    ">
                        <svg width="14" height="14" viewBox="0 0 24 24" fill="currentColor">
                            <path d="M18,8h-1V6c0-2.76-2.24-5-5-5S7,3.24,7,6v2H6c-1.1,0-2,0.9-2,2v10c0,1.1,0.9,2,2,2h12c1.1,0,2-0.9,2-2V10C20,8.9,19.1,8,18,8z M9,6c0-1.66,1.34-3,3-3s3,1.34,3,3v2H9V6z"/>
                        </svg>
                    </div>
                    <input id="xbrowser-url" type="text" value="${window.location.href}" style="
                        flex: 1;
                        border: none;
                        outline: none;
                        font-size: 14px;
                        background: transparent;
                        color: #333;
                    " readonly>
                </div>
                
                <button id="xbrowser-close" style="
                    width: 32px;
                    height: 32px;
                    border: none;
                    border-radius: 6px;
                    background: transparent;
                    cursor: pointer;
                    display: flex;
                    align-items: center;
                    justify-content: center;
                    color: #d32f2f;
                    transition: background 0.2s;
                " title="Close">
                    <svg width="16" height="16" viewBox="0 0 24 24" fill="currentColor">
                        <path d="M19,6.41L17.59,5L12,10.59L6.41,5L5,6.41L10.59,12L5,17.59L6.41,19L12,13.41L17.59,19L19,17.59L13.41,12L19,6.41Z"/>
                    </svg>
                </button>
            </div>
        `;

        // Inject navigation bar
        document.body.insertAdjacentHTML('afterbegin', navBarHTML);
        
        // Adjust body margin to account for nav bar
        document.body.style.marginTop = '50px';
        
        // Add button hover effects
        const buttons = document.querySelectorAll('#xbrowser-nav-bar button');
        buttons.forEach(button => {
            button.addEventListener('mouseenter', () => {
                button.style.background = 'rgba(0,0,0,0.1)';
            });
            button.addEventListener('mouseleave', () => {
                button.style.background = 'transparent';
            });
        });
        
        // Add navigation functionality
        document.getElementById('xbrowser-back').addEventListener('click', () => {
            if (window.history.length > 1) {
                window.history.back();
            }
        });
        
        document.getElementById('xbrowser-forward').addEventListener('click', () => {
            window.history.forward();
        });
        
        document.getElementById('xbrowser-reload').addEventListener('click', () => {
            window.location.reload();
        });
        
        document.getElementById('xbrowser-close').addEventListener('click', () => {
            // This will be handled by the Tauri backend
            window.close();
        });
        
        // Update URL when navigation occurs
        const updateURL = () => {
            const urlInput = document.getElementById('xbrowser-url');
            if (urlInput) {
                urlInput.value = window.location.href;
            }
        };
        
        // Listen for navigation events
        window.addEventListener('popstate', updateURL);
        window.addEventListener('load', updateURL);
        
        // Update URL periodically (for dynamic content)
        setInterval(updateURL, 1000);
        
        // Make navigation bar unselectable
        const navBar = document.getElementById('xbrowser-nav-bar');
        navBar.style.userSelect = 'none';
        navBar.style.webkitUserSelect = 'none';
        navBar.style.mozUserSelect = 'none';
        navBar.style.msUserSelect = 'none';
        
        console.log('xbrowser navigation bar injected');
    })();
    "#;

/// The script that puts the navigation bar into a page.
pub fn get_navigation_bar_script() -> (script: String)
    ensures
        script@ == NAVIGATION_BAR_SCRIPT@,
{
    NAVIGATION_BAR_SCRIPT.to_owned()
}

} // verus!
